//! Field violations as the `validator` crate records them, and the step that
//! resolves their messages.

use vstd::prelude::*;
use std::borrow::Cow;
use validator::{ValidationError, ValidationErrors};
use crate::messages::{message_for, MessageTable};

verus! {

/// A violated rule: its code, and its message once one has been resolved.
pub type Violation = (Seq<char>, Option<Seq<char>>);

/// Violations by field name, each list in the order in which they were found.
pub type FieldViolations = Map<Seq<char>, Seq<Violation>>;

/// `validator::ValidationError`: one violated rule, with its code, its
/// message where it has one, and the parameters of the rule.
#[verifier::external_type_specification]
#[verifier::external_body]
pub struct ExValidationError(validator::ValidationError);

/// `validator::ValidationErrors`: the violations of a value, kept in a hash
/// map by field name.
#[verifier::external_type_specification]
#[verifier::external_body]
pub struct ExValidationErrors(validator::ValidationErrors);

/// The code and the message that a `ValidationError` holds.
pub uninterp spec fn violation_of(error: ValidationError) -> (Seq<char>, Option<Seq<char>>);

/// What `ValidationErrors::field_errors` holds: the violations recorded
/// directly under each field, in the order of recording.
pub uninterp spec fn field_errors_of(errors: ValidationErrors) -> Map<
    Seq<char>,
    Seq<(Seq<char>, Option<Seq<char>>)>,
>;

/// The fields under which a `ValidationErrors` holds the violations of a
/// nested struct or list instead of violations of its own.
pub uninterp spec fn nested_fields_of(errors: ValidationErrors) -> Set<Seq<char>>;

/// The violations recorded under `field`, none where the field is absent.
pub open spec fn recorded(errors: FieldViolations, field: Seq<char>) -> Seq<Violation> {
    if errors.contains_key(field) {
        errors[field]
    } else {
        Seq::empty()
    }
}

/// `ValidationErrors::new` makes a value that holds nothing.
pub assume_specification[ validator::ValidationErrors::new ]() -> (errors: ValidationErrors)
    ensures
        (field_errors_of(errors) == Map::<Seq<char>, Seq<Violation>>::empty()),
        nested_fields_of(errors) == Set::<Seq<char>>::empty(),
;

/// `ValidationErrors::add` appends the violation to the list of its field,
/// starting the list where the field had none. It panics where the field
/// holds nested violations, which the precondition excludes.
pub assume_specification[ validator::ValidationErrors::add ](
    errors: &mut ValidationErrors,
    field: &'static str,
    error: ValidationError,
)
    requires
        !nested_fields_of(*old(errors)).contains(field@),
    ensures
        nested_fields_of(*final(errors)) == nested_fields_of(*old(errors)),
        field_errors_of(*final(errors)) == field_errors_of(*old(errors)).insert(
            field@,
            recorded(field_errors_of(*old(errors)), field@).push(violation_of(error)),
        ),
;

/// `ValidationErrors::is_empty` tells whether no field holds anything.
pub assume_specification[ validator::ValidationErrors::is_empty ](
    errors: &ValidationErrors,
) -> (empty: bool)
    ensures
        empty <==> (forall|field: Seq<char>|
            !field_errors_of(*errors).contains_key(field) && !nested_fields_of(*errors).contains(
                field,
            )),
;

/// `ValidationError::new` makes a violation with the given code and no
/// message.
pub assume_specification[ validator::ValidationError::new ](code: &'static str) -> (error:
    ValidationError)
    ensures
        violation_of(error) == (code@, None::<Seq<char>>),
;

/// Whether `entries` lists `errors` field by field: every field once, with
/// the violations recorded under it, the fields in any order.
pub(crate) open spec fn lists(
    entries: Seq<(&'static str, &Vec<ValidationError>)>,
    errors: FieldViolations,
) -> bool {
    &&& forall|i: int, j: int|
        0 <= i < j < entries.len() ==> (#[trigger] entries[i]).0@ != (#[trigger] entries[j]).0@
    &&& forall|i: int|
        0 <= i < entries.len() ==> errors.contains_key((#[trigger] entries[i]).0@)
            && errors[entries[i].0@] == entries[i].1@.map_values(
            |error: ValidationError| violation_of(error),
        )
    &&& forall|field: Seq<char>| #[trigger]
        errors.contains_key(field) ==> exists|i: int|
            0 <= i < entries.len() && (#[trigger] entries[i]).0@ == field
}

/// `ValidationErrors::field_errors`, with the hash map that it returns
/// turned into a vector: every field that holds violations of its own occurs
/// once, with those violations in the order of recording. The order of the
/// fields is that in which the hash map yields them, of which nothing is
/// claimed.
#[verifier::external_body]
pub(crate) fn field_entries(errors: &ValidationErrors) -> (entries: Vec<
    (&'static str, &Vec<ValidationError>),
>)
    ensures
        lists(entries@, field_errors_of(*errors)),
{
    errors.field_errors().into_iter().collect()
}

/// The `code` field of a `ValidationError`, as an owned string.
#[verifier::external_body]
pub(crate) fn error_code(error: &ValidationError) -> (code: String)
    ensures
        code@ == violation_of(*error).0,
{
    error.code.clone().into_owned()
}

/// The `message` field of a `ValidationError`, as an owned string.
#[verifier::external_body]
pub(crate) fn error_message(error: &ValidationError) -> (message: Option<String>)
    ensures
        message is Some <==> violation_of(*error).1 is Some,
        message matches Some(text) ==> violation_of(*error).1 == Some(text@),
{
    error.message.clone().map(|text| text.into_owned())
}

/// `ValidationError::clone`, with the `message` field of the clone set to
/// the given text: the code stays, and so do the parameters.
#[verifier::external_body]
fn with_message(error: &ValidationError, message: String) -> (resolved: ValidationError)
    ensures
        violation_of(resolved) == (violation_of(*error).0, Some(message@)),
{
    let mut resolved = error.clone();
    resolved.message = Some(Cow::from(message));
    resolved
}

/// The violations of `errors` with every message resolved through `table`:
/// each violation keeps its code and gets the message that the table gives
/// for it. A field without violations is left out.
pub open spec fn localized(
    errors: FieldViolations,
    table: Map<Seq<char>, Seq<char>>,
) -> FieldViolations {
    Map::new(
        |field: Seq<char>| errors.contains_key(field) && errors[field].len() > 0,
        |field: Seq<char>| localized_list(errors[field], table),
    )
}

/// A list of violations with every message resolved through `table`.
pub open spec fn localized_list(
    list: Seq<Violation>,
    table: Map<Seq<char>, Seq<char>>,
) -> Seq<Violation> {
    list.map_values(|v: Violation| (v.0, Some(message_for(table, v.0))))
}

/// Resolving messages loses no violation: a field keeps as many violations as
/// it had, each with its code and in its place, and every one of them has a
/// message afterwards.
pub proof fn lemma_localized_keeps_violations(
    errors: FieldViolations,
    table: Map<Seq<char>, Seq<char>>,
    field: Seq<char>,
)
    requires
        errors.contains_key(field),
        errors[field].len() > 0,
    ensures
        localized(errors, table).contains_key(field),
        localized(errors, table)[field].len() == errors[field].len(),
        forall|i: int|
            0 <= i < errors[field].len() ==> (#[trigger] localized(errors, table)[field][i]).0
                == errors[field][i].0 && localized(errors, table)[field][i].1 == Some(
                message_for(table, errors[field][i].0),
            ),
{
}

/// Resolves the message of every violation recorded directly under a field
/// of `e`, by the code of the violation. Violations of nested values are not
/// carried over.
pub fn to_new_validation_errors(
    e: ValidationErrors,
    messages: &MessageTable,
) -> (new_validation_errors: ValidationErrors)
    ensures
        field_errors_of(new_validation_errors) == localized(field_errors_of(e), messages@),
        nested_fields_of(new_validation_errors) == Set::<Seq<char>>::empty(),
{
    let mut new_validation_errors = ValidationErrors::new();
    let entries = field_entries(&e);
    let ghost old_errors = field_errors_of(e);
    let ghost table = messages@;
    let mut i: usize = 0;
    while i < entries.len()
        invariant
            i <= entries.len(),
            lists(entries@, old_errors),
            table == messages@,
            nested_fields_of(new_validation_errors) == Set::<Seq<char>>::empty(),
            field_errors_of(new_validation_errors) == localized(
                old_errors.restrict(seen(entries@, i as int)),
                table,
            ),
        decreases entries.len() - i,
    {
        let field: &'static str = entries[i].0;
        let vec_validation_error: &Vec<ValidationError> = entries[i].1;
        let ghost before = field_errors_of(new_validation_errors);
        let ghost list = old_errors[field@];
        assert(!before.contains_key(field@));
        let mut j: usize = 0;
        while j < vec_validation_error.len()
            invariant
                j <= vec_validation_error.len(),
                table == messages@,
                !before.contains_key(field@),
                list == vec_validation_error@.map_values(
                    |error: ValidationError| violation_of(error),
                ),
                nested_fields_of(new_validation_errors) == Set::<Seq<char>>::empty(),
                j == 0 ==> field_errors_of(new_validation_errors) == before,
                j > 0 ==> field_errors_of(new_validation_errors) == before.insert(
                    field@,
                    localized_list(list.take(j as int), table),
                ),
            decreases vec_validation_error.len() - j,
        {
            let validation_err = &vec_validation_error[j];
            let code = error_code(validation_err);
            let message = messages.lookup(code.as_str());
            let new_validation_error = with_message(validation_err, message);
            new_validation_errors.add(field, new_validation_error);
            proof {
                let shorter = localized_list(list.take(j as int), table);
                let longer = localized_list(list.take(j as int + 1), table);
                assert(list[j as int] == violation_of(*validation_err));
                assert(violation_of(new_validation_error) == (
                    list[j as int].0,
                    Some(message_for(table, list[j as int].0)),
                ));
                assert(longer =~= shorter.push(violation_of(new_validation_error)));
                if j == 0 {
                    assert(shorter =~= Seq::<Violation>::empty());
                    assert(recorded(before, field@) =~= Seq::<Violation>::empty());
                } else {
                    assert(recorded(before.insert(field@, shorter), field@) == shorter);
                    assert(before.insert(field@, shorter).insert(field@, longer)
                        =~= before.insert(field@, longer));
                }
            }
            j += 1;
        }
        proof {
            assert(list.take(list.len() as int) =~= list);
            assert(seen(entries@, i as int + 1) =~= seen(entries@, i as int).insert(field@));
            assert(field_errors_of(new_validation_errors) =~= localized(
                old_errors.restrict(seen(entries@, i as int + 1)),
                table,
            ));
        }
        i += 1;
    }
    proof {
        assert(old_errors.restrict(seen(entries@, entries.len() as int)) =~= old_errors);
    }
    new_validation_errors
}

/// The fields of the first `n` entries.
spec fn seen(entries: Seq<(&'static str, &Vec<ValidationError>)>, n: int) -> Set<Seq<char>> {
    Set::new(
        |field: Seq<char>| exists|k: int| 0 <= k < n && (#[trigger] entries[k]).0@ == field,
    )
}

} // verus!
