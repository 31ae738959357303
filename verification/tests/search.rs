use adventures::search::{
    add_adventure, add_adventures, completed, delete_adventure, delete_adventures, IndexRequest,
    IndexStatus, IndexStep, MyAdventures, SearchError,
};

fn doc(id: i64, title: &str) -> MyAdventures {
    MyAdventures {
        id,
        title: title.to_string(),
        image_url: "https://x.com/a.jpg".to_string(),
        link: "https://x.com/trip".to_string(),
        source: 1,
        journey_destiny: "rome".to_string(),
    }
}

fn upserted(step: IndexStep) -> Vec<MyAdventures> {
    match step {
        IndexStep::Submit(IndexRequest::Upsert(ads)) => ads,
        _ => panic!("expected an upsert"),
    }
}

fn deleted(step: IndexStep) -> Vec<i64> {
    match step {
        IndexStep::Submit(IndexRequest::Delete(uids)) => uids,
        _ => panic!("expected a delete"),
    }
}

#[test]
fn add_adventures_confirmed_by_the_index_is_true() {
    let ads = upserted(add_adventures(vec![doc(1, "Trip to Rome"), doc(2, "Trip to Oslo")]));
    assert_eq!(ads.len(), 2);
    assert_eq!(ads[0].id, 1);
    assert_eq!(ads[0].title, "Trip to Rome");
    assert_eq!(ads[1].id, 2);
    assert_eq!(ads[1].title, "Trip to Oslo");
    assert_eq!(completed(Ok(IndexStatus::Succeeded)).unwrap(), true);
}

#[test]
fn any_other_status_is_false_and_no_error() {
    assert_eq!(completed(Ok(IndexStatus::Enqueued)).unwrap(), false);
    assert_eq!(completed(Ok(IndexStatus::Failed)).unwrap(), false);
}

#[test]
fn only_succeeded_confirms() {
    assert!(IndexStatus::Succeeded.confirmed());
    assert!(!IndexStatus::Enqueued.confirmed());
    assert!(!IndexStatus::Failed.confirmed());
}

#[test]
fn an_error_of_the_index_is_handed_on() {
    let answer = completed(Err(SearchError { report: "connection refused".to_string() }));
    assert_eq!(answer.unwrap_err().report, "connection refused");
}

#[test]
fn add_adventure_submits_a_batch_of_one() {
    let ads = upserted(add_adventure(doc(5, "Trip to Rome")));
    assert_eq!(ads.len(), 1);
    assert_eq!(ads[0].id, 5);
    assert_eq!(ads[0].title, "Trip to Rome");
    assert_eq!(ads[0].journey_destiny, "rome");
}

#[test]
fn add_adventures_submits_an_empty_batch_too() {
    assert!(upserted(add_adventures(Vec::new())).is_empty());
}

#[test]
fn delete_adventure_minus_five_is_false_without_a_request() {
    assert!(matches!(delete_adventure(-5), IndexStep::Finished(false)));
}

#[test]
fn delete_adventure_below_one_never_submits() {
    for uid in [0, -1, -5, i64::MIN] {
        assert!(matches!(delete_adventure(uid), IndexStep::Finished(false)));
    }
}

#[test]
fn delete_adventure_submits_a_batch_of_one() {
    assert_eq!(deleted(delete_adventure(1)), vec![1]);
    assert_eq!(deleted(delete_adventure(77)), vec![77]);
    assert_eq!(deleted(delete_adventure(i64::MAX)), vec![i64::MAX]);
}

#[test]
fn delete_adventures_submits_the_batch_as_it_is() {
    assert_eq!(deleted(delete_adventures(vec![3, 1, 2])), vec![3, 1, 2]);
    assert_eq!(deleted(delete_adventures(vec![0, -5])), vec![0, -5]);
    assert!(deleted(delete_adventures(Vec::new())).is_empty());
}
