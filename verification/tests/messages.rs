use adventures::messages::MessageTable;

#[test]
fn lookup_falls_back_to_the_code() {
    let table = MessageTable::new();
    assert_eq!(table.lookup("adventure-journey-valid-title"), "adventure-journey-valid-title");
    assert_eq!(table.lookup(""), "");
}

#[test]
fn lookup_gives_the_stored_message() {
    let mut table = MessageTable::new();
    table.insert("valid-title".to_string(), "Title must have 5 to 40 characters".to_string());
    table.insert("valid-link".to_string(), "Link must be a URL".to_string());
    assert_eq!(table.lookup("valid-title"), "Title must have 5 to 40 characters");
    assert_eq!(table.lookup("valid-link"), "Link must be a URL");
    assert_eq!(table.lookup("valid-image_url"), "valid-image_url");
}

#[test]
fn insert_replaces_an_earlier_message() {
    let mut table = MessageTable::new();
    table.insert("code".to_string(), "first".to_string());
    table.insert("other".to_string(), "kept".to_string());
    table.insert("code".to_string(), "second".to_string());
    assert_eq!(table.lookup("code"), "second");
    assert_eq!(table.lookup("other"), "kept");
}

#[test]
fn codes_are_compared_exactly() {
    let mut table = MessageTable::new();
    table.insert("code".to_string(), "text".to_string());
    assert_eq!(table.lookup("Code"), "Code");
    assert_eq!(table.lookup("code "), "code ");
    assert_eq!(table.lookup("cod"), "cod");
}
