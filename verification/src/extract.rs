//! Typed request values that have passed their field rules.

use vstd::prelude::*;
use validator::ValidationErrors;
use crate::error::{AppError, RequestPart};
use crate::messages::MessageTable;
use crate::violations::{
    field_errors_of, localized, nested_fields_of, to_new_validation_errors, FieldViolations,
};

verus! {

/// Whether no rule is broken.
pub open spec fn clean(violations: FieldViolations) -> bool {
    violations == Map::<Seq<char>, Seq<(Seq<char>, Option<Seq<char>>)>>::empty()
}

/// A value with field rules.
pub trait Validate {
    /// The rules that the value breaks, by field.
    spec fn violations(&self) -> FieldViolations;

    /// Checks every rule of every field. The outcome is `Ok` where no rule is
    /// broken, and holds exactly the broken rules otherwise.
    fn validate(&self) -> (outcome: Result<(), ValidationErrors>)
        ensures
            outcome is Ok <==> clean(self.violations()),
            outcome matches Err(errors) ==> field_errors_of(errors) == self.violations()
                && nested_fields_of(errors) == Set::<Seq<char>>::empty(),
    ;
}

/// Validates what was read from `part` of a request, given how reading it
/// went: a reading failure is reported as such, a value that breaks rules is
/// reported with the messages of its violations resolved, and any other value
/// is handed on unchanged.
fn extract<T: Validate>(
    part: RequestPart,
    parsed: Result<T, String>,
    messages: &MessageTable,
) -> (outcome: Result<T, AppError>)
    ensures
        parsed matches Err(report) ==> (outcome matches Err(AppError::MalformedPayload(p, detail))
            && p == part && detail@ == report@),
        parsed matches Ok(value) ==> (clean(value.violations()) ==> outcome == Ok::<T, AppError>(
            value,
        )),
        parsed matches Ok(value) ==> (!clean(value.violations()) ==> (outcome matches Err(
            AppError::InvalidParam(errors),
        ) && field_errors_of(errors) == localized(value.violations(), messages@)
            && nested_fields_of(errors) == Set::<Seq<char>>::empty())),
{
    match parsed {
        Err(report) => Err(AppError::MalformedPayload(part, report)),
        Ok(value) => match value.validate() {
            Ok(()) => Ok(value),
            Err(e) => {
                let ves = to_new_validation_errors(e, messages);
                Err(AppError::InvalidParam(ves))
            },
        },
    }
}

/// A value read from the query string that breaks none of its rules.
pub struct ValidatedQuery<T: Validate>(T);

/// A value read from a JSON body that breaks none of its rules.
pub struct ValidatedJson<T: Validate>(T);

/// A value read from the path that breaks none of its rules.
pub struct ValidatedPath<T: Validate>(T);

impl<T: Validate> ValidatedQuery<T> {
    #[verifier::type_invariant]
    spec fn valid(self) -> bool {
        clean(self.0.violations())
    }

    /// The value that was validated.
    pub closed spec fn value(&self) -> T {
        self.0
    }

    /// Validates the value read from the query string of a request, given
    /// how reading it went: a reading failure is reported as such, a value
    /// that breaks rules is reported with the messages of its violations
    /// resolved, and any other value is accepted.
    pub fn from_request(parsed: Result<T, String>, messages: &MessageTable) -> (outcome: Result<
        Self,
        AppError,
    >)
        ensures
            parsed matches Err(report) ==> (outcome matches Err(
                AppError::MalformedPayload(part, detail),
            ) && part == RequestPart::Query && detail@ == report@),
            parsed matches Ok(value) ==> (clean(value.violations()) ==> (outcome matches Ok(
                accepted,
            ) && accepted.value() == value)),
            parsed matches Ok(value) ==> (!clean(value.violations()) ==> (outcome matches Err(
                AppError::InvalidParam(errors),
            ) && field_errors_of(errors) == localized(value.violations(), messages@)
                && nested_fields_of(errors) == Set::<Seq<char>>::empty())),
    {
        match extract(RequestPart::Query, parsed, messages) {
            Ok(value) => Ok(ValidatedQuery(value)),
            Err(e) => Err(e),
        }
    }

    /// The validated value.
    pub fn get(&self) -> (value: &T)
        ensures
            *value == self.value(),
            clean(value.violations()),
    {
        proof {
            use_type_invariant(self);
        }
        &self.0
    }

    /// Gives up the wrapper for the validated value.
    pub fn into_inner(self) -> (value: T)
        ensures
            value == self.value(),
            clean(value.violations()),
    {
        proof {
            use_type_invariant(&self);
        }
        self.0
    }
}

impl<T: Validate> ValidatedJson<T> {
    #[verifier::type_invariant]
    spec fn valid(self) -> bool {
        clean(self.0.violations())
    }

    /// The value that was validated.
    pub closed spec fn value(&self) -> T {
        self.0
    }

    /// Validates the value read from the JSON body of a request, given
    /// how reading it went: a reading failure is reported as such, a value
    /// that breaks rules is reported with the messages of its violations
    /// resolved, and any other value is accepted.
    pub fn from_request(parsed: Result<T, String>, messages: &MessageTable) -> (outcome: Result<
        Self,
        AppError,
    >)
        ensures
            parsed matches Err(report) ==> (outcome matches Err(
                AppError::MalformedPayload(part, detail),
            ) && part == RequestPart::Body && detail@ == report@),
            parsed matches Ok(value) ==> (clean(value.violations()) ==> (outcome matches Ok(
                accepted,
            ) && accepted.value() == value)),
            parsed matches Ok(value) ==> (!clean(value.violations()) ==> (outcome matches Err(
                AppError::InvalidParam(errors),
            ) && field_errors_of(errors) == localized(value.violations(), messages@)
                && nested_fields_of(errors) == Set::<Seq<char>>::empty())),
    {
        match extract(RequestPart::Body, parsed, messages) {
            Ok(value) => Ok(ValidatedJson(value)),
            Err(e) => Err(e),
        }
    }

    /// The validated value.
    pub fn get(&self) -> (value: &T)
        ensures
            *value == self.value(),
            clean(value.violations()),
    {
        proof {
            use_type_invariant(self);
        }
        &self.0
    }

    /// Gives up the wrapper for the validated value.
    pub fn into_inner(self) -> (value: T)
        ensures
            value == self.value(),
            clean(value.violations()),
    {
        proof {
            use_type_invariant(&self);
        }
        self.0
    }
}

impl<T: Validate> ValidatedPath<T> {
    #[verifier::type_invariant]
    spec fn valid(self) -> bool {
        clean(self.0.violations())
    }

    /// The value that was validated.
    pub closed spec fn value(&self) -> T {
        self.0
    }

    /// Validates the value read from the path of a request, given
    /// how reading it went: a reading failure is reported as such, a value
    /// that breaks rules is reported with the messages of its violations
    /// resolved, and any other value is accepted.
    pub fn from_request(parsed: Result<T, String>, messages: &MessageTable) -> (outcome: Result<
        Self,
        AppError,
    >)
        ensures
            parsed matches Err(report) ==> (outcome matches Err(
                AppError::MalformedPayload(part, detail),
            ) && part == RequestPart::Path && detail@ == report@),
            parsed matches Ok(value) ==> (clean(value.violations()) ==> (outcome matches Ok(
                accepted,
            ) && accepted.value() == value)),
            parsed matches Ok(value) ==> (!clean(value.violations()) ==> (outcome matches Err(
                AppError::InvalidParam(errors),
            ) && field_errors_of(errors) == localized(value.violations(), messages@)
                && nested_fields_of(errors) == Set::<Seq<char>>::empty())),
    {
        match extract(RequestPart::Path, parsed, messages) {
            Ok(value) => Ok(ValidatedPath(value)),
            Err(e) => Err(e),
        }
    }

    /// The validated value.
    pub fn get(&self) -> (value: &T)
        ensures
            *value == self.value(),
            clean(value.violations()),
    {
        proof {
            use_type_invariant(self);
        }
        &self.0
    }

    /// Gives up the wrapper for the validated value.
    pub fn into_inner(self) -> (value: T)
        ensures
            value == self.value(),
            clean(value.violations()),
    {
        proof {
            use_type_invariant(&self);
        }
        self.0
    }
}

} // verus!
