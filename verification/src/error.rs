//! The failures of a request.

use vstd::prelude::*;
use validator::{ValidationError, ValidationErrors};
use crate::messages::{message_for, MessageTable};
use crate::search::SearchError;
use crate::violations::{
    error_code, error_message, field_entries, field_errors_of, lists, violation_of,
    FieldViolations, Violation,
};

verus! {

/// The part of a request that a typed value is read from.
#[derive(Debug, Clone, Copy, PartialEq, Eq, Structural)]
pub enum RequestPart {
    Query,
    Body,
    Path,
}

/// Why a request was not served.
#[derive(Debug)]
pub enum AppError {
    /// The request carries no authorization credential.
    AuthMissing,
    /// The credential is unreadable or was not accepted.
    AuthInvalid,
    /// The named part of the request could not be read as the expected shape;
    /// the text is what the reader reported.
    MalformedPayload(RequestPart, String),
    /// The value was read and breaks field rules.
    InvalidParam(ValidationErrors),
    /// No user goes by the name that the credential gives.
    UserNotFound,
    /// The source code of a journey names no source.
    InvalidSource,
    /// The domain layer failed; the text is its report.
    DomainFailure(String),
    /// The search index could not be asked.
    SearchError(SearchError),
}

/// A violation as a client is shown it.
#[derive(Debug, Clone)]
pub struct ViolationReport {
    pub code: String,
    pub message: String,
}

/// The violations of one field as a client is shown them.
#[derive(Debug, Clone)]
pub struct FieldReport {
    pub field: String,
    pub violations: Vec<ViolationReport>,
}

/// What a client is told of a failed request.
#[derive(Debug, Clone)]
pub struct ErrorBody {
    /// The code of the failure, which does not change between releases.
    pub code: String,
    /// The localized message for the code.
    pub message: String,
    /// The fields to highlight, for a value that breaks rules.
    pub fields: Vec<FieldReport>,
}

/// The code and the message shown for a violation: the resolved message, or
/// the code where none was resolved.
pub open spec fn shown(violation: Violation) -> (Seq<char>, Seq<char>) {
    (
        violation.0,
        match violation.1 {
            Some(message) => message,
            None => violation.0,
        },
    )
}

impl View for ViolationReport {
    type V = (Seq<char>, Seq<char>);

    open spec fn view(&self) -> (Seq<char>, Seq<char>) {
        (self.code@, self.message@)
    }
}

/// Whether `fields` shows `errors` field by field: every field once, with its
/// violations in their order, the fields in any order.
pub open spec fn reports(fields: Seq<FieldReport>, errors: FieldViolations) -> bool {
    &&& forall|i: int, j: int|
        0 <= i < j < fields.len() ==> (#[trigger] fields[i]).field@ != (#[trigger] fields[j]).field@
    &&& forall|i: int|
        0 <= i < fields.len() ==> errors.contains_key((#[trigger] fields[i]).field@)
            && fields[i].violations@.map_values(|r: ViolationReport| r@)
            == errors[fields[i].field@].map_values(|v: Violation| shown(v))
    &&& forall|field: Seq<char>| #[trigger]
        errors.contains_key(field) ==> exists|i: int|
            0 <= i < fields.len() && (#[trigger] fields[i]).field@ == field
}

/// A failure of the domain layer.
#[derive(Debug)]
pub enum DomainError {
    /// No user goes by the name asked for.
    UserNotFound,
    /// Anything else; the text is the report of the domain layer.
    Failure(String),
}

impl DomainError {
    /// How a request reports this failure: a missing user as such, anything
    /// else as a domain failure with the same report.
    pub open spec fn reported(self) -> AppError {
        match self {
            DomainError::UserNotFound => AppError::UserNotFound,
            DomainError::Failure(report) => AppError::DomainFailure(report),
        }
    }
}

impl AppError {
    /// The code under which clients know the failure. It depends on the kind
    /// of the failure alone.
    pub open spec fn spec_code(&self) -> Seq<char> {
        match self {
            AppError::AuthMissing => "auth-missing"@,
            AppError::AuthInvalid => "auth-invalid"@,
            AppError::MalformedPayload(_, _) => "malformed-payload"@,
            AppError::InvalidParam(_) => "invalid-param"@,
            AppError::UserNotFound => "user-not-found"@,
            AppError::InvalidSource => "invalid-source"@,
            AppError::DomainFailure(_) => "domain-failure"@,
            AppError::SearchError(_) => "search-error"@,
        }
    }

    /// The violations that the failure carries: those of the value, for a
    /// value that breaks rules, and none for any other failure.
    pub open spec fn spec_violations(&self) -> FieldViolations {
        match self {
            AppError::InvalidParam(errors) => field_errors_of(*errors),
            _ => Map::empty(),
        }
    }

    /// The code under which clients know the failure.
    pub fn code(&self) -> (code: &'static str)
        ensures
            code@ == self.spec_code(),
    {
        match self {
            AppError::AuthMissing => "auth-missing",
            AppError::AuthInvalid => "auth-invalid",
            AppError::MalformedPayload(_, _) => "malformed-payload",
            AppError::InvalidParam(_) => "invalid-param",
            AppError::UserNotFound => "user-not-found",
            AppError::InvalidSource => "invalid-source",
            AppError::DomainFailure(_) => "domain-failure",
            AppError::SearchError(_) => "search-error",
        }
    }

    /// What a client is told of the failure: its code, the localized message
    /// for the code, and the violations field by field where a value breaks
    /// rules. The reports that the failure carries from readers, the domain
    /// layer or the index are not passed on.
    pub fn translate(&self, messages: &MessageTable) -> (body: ErrorBody)
        ensures
            body.code@ == self.spec_code(),
            body.message@ == message_for(messages@, self.spec_code()),
            reports(body.fields@, self.spec_violations()),
            !(self is InvalidParam) ==> body.fields@.len() == 0,
    {
        let code = self.code();
        let fields = match self {
            AppError::InvalidParam(errors) => field_reports(errors),
            _ => Vec::new(),
        };
        ErrorBody { code: code.to_owned(), message: messages.lookup(code), fields }
    }

    /// The failure of a request whose domain action failed.
    pub fn from_domain(e: DomainError) -> (failure: AppError)
        ensures
            failure == e.reported(),
    {
        match e {
            DomainError::UserNotFound => AppError::UserNotFound,
            DomainError::Failure(report) => AppError::DomainFailure(report),
        }
    }

    /// The failure of a request that could not ask the search index.
    pub fn from_search(e: SearchError) -> (failure: AppError)
        ensures
            failure == AppError::SearchError(e),
    {
        AppError::SearchError(e)
    }
}

/// Lists the violations of every field as a client is shown them.
fn field_reports(errors: &ValidationErrors) -> (fields: Vec<FieldReport>)
    ensures
        reports(fields@, field_errors_of(*errors)),
{
    let entries = field_entries(errors);
    let ghost all = field_errors_of(*errors);
    let mut fields: Vec<FieldReport> = Vec::new();
    let mut i: usize = 0;
    while i < entries.len()
        invariant
            i <= entries.len(),
            lists(entries@, all),
            fields.len() == i,
            forall|k: int| 0 <= k < i ==> (#[trigger] fields[k]).field@ == entries[k].0@,
            forall|k: int|
                0 <= k < i ==> (#[trigger] fields[k]).violations@.map_values(
                    |r: ViolationReport| r@,
                ) == all[entries[k].0@].map_values(|v: Violation| shown(v)),
        decreases entries.len() - i,
    {
        let field: &'static str = entries[i].0;
        let found: &Vec<ValidationError> = entries[i].1;
        let ghost list = all[field@];
        let mut violations: Vec<ViolationReport> = Vec::new();
        let mut j: usize = 0;
        while j < found.len()
            invariant
                j <= found.len(),
                list == found@.map_values(|error: ValidationError| violation_of(error)),
                violations@.map_values(|r: ViolationReport| r@) == list.take(j as int).map_values(
                    |v: Violation| shown(v),
                ),
            decreases found.len() - j,
        {
            let code = error_code(&found[j]);
            let message = match error_message(&found[j]) {
                Some(text) => text,
                None => code.clone(),
            };
            let ghost before = violations@;
            violations.push(ViolationReport { code, message });
            proof {
                assert(list[j as int] == violation_of(found[j as int]));
                assert(violations@.map_values(|r: ViolationReport| r@) =~= before.map_values(
                    |r: ViolationReport| r@,
                ).push(shown(list[j as int])));
                assert(list.take(j as int + 1).map_values(|v: Violation| shown(v)) =~= list.take(
                    j as int,
                ).map_values(|v: Violation| shown(v)).push(shown(list[j as int])));
            }
            j += 1;
        }
        proof {
            assert(list.take(list.len() as int) =~= list);
        }
        fields.push(FieldReport { field: field.to_owned(), violations });
        i += 1;
    }
    proof {
        assert forall|field: Seq<char>| #[trigger] all.contains_key(field) implies exists|i: int|
            0 <= i < fields.len() && (#[trigger] fields[i]).field@ == field by {
            let k = choose|k: int| 0 <= k < entries.len() && (#[trigger] entries[k]).0@ == field;
            assert(fields[k].field@ == field);
        }
    }
    fields
}

} // verus!
