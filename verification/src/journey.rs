//! Journeys: the form a client submits, its rules, and the command that the
//! domain layer persists.

use vstd::prelude::*;
use validator::{ValidationError, ValidationErrors};
use crate::auth::JwtAuth;
use crate::error::{AppError, DomainError};
use crate::extract::{clean, Validate, ValidatedJson};
use crate::rules::{identifier, is_identifier, is_url, length_within, url_parses};
use crate::violations::{field_errors_of, nested_fields_of, recorded, FieldViolations};

verus! {

/// The source of a journey: the kind of publication that its link leads to.
#[derive(Debug, Clone, Copy, PartialEq, Eq, Structural)]
pub enum JourneySource {
    Article,
    Video,
    Album,
}

impl JourneySource {
    /// The source that `code` stands for: 1 for an article, 2 for a video, 3
    /// for an album, and none for any other code.
    pub open spec fn of_code(code: u8) -> Option<JourneySource> {
        if code == 1 {
            Some(JourneySource::Article)
        } else if code == 2 {
            Some(JourneySource::Video)
        } else if code == 3 {
            Some(JourneySource::Album)
        } else {
            None
        }
    }

    /// The code that stands for the source.
    pub open spec fn spec_code(self) -> u8 {
        match self {
            JourneySource::Article => 1,
            JourneySource::Video => 2,
            JourneySource::Album => 3,
        }
    }

    /// Codes and sources stand for each other: the code of a source reads
    /// back as that source, and a code that reads as a source is the code of
    /// it.
    pub proof fn lemma_code_round_trip(source: JourneySource, code: u8)
        ensures
            Self::of_code(source.spec_code()) == Some(source),
            Self::of_code(code) is Some <==> 1 <= code <= 3,
            Self::of_code(code) matches Some(read) ==> read.spec_code() == code,
    {
    }

    /// Reads a source code.
    pub fn from_code(code: u8) -> (source: Option<JourneySource>)
        ensures
            source == Self::of_code(code),
    {
        if code == 1 {
            Some(JourneySource::Article)
        } else if code == 2 {
            Some(JourneySource::Video)
        } else if code == 3 {
            Some(JourneySource::Album)
        } else {
            None
        }
    }

    /// The code of the source.
    #[verifier::when_used_as_spec(spec_code)]
    pub fn code(self) -> (code: u8)
        ensures
            code == self.spec_code(),
    {
        match self {
            JourneySource::Article => 1,
            JourneySource::Video => 2,
            JourneySource::Album => 3,
        }
    }
}

/// What a client submits to record a journey.
#[derive(Debug, Clone)]
pub struct JourneyForm {
    pub title: String,
    pub image_url: String,
    pub link: String,
    pub source: u8,
    pub journey_destiny: String,
}

impl Default for JourneyForm {
    /// The empty form: no text in any field, and the source code 0.
    fn default() -> (form: Self)
        ensures
            form.title@.len() == 0,
            form.image_url@.len() == 0,
            form.link@.len() == 0,
            form.source == 0,
            form.journey_destiny@.len() == 0,
    {
        JourneyForm {
            title: String::new(),
            image_url: String::new(),
            link: String::new(),
            source: 0,
            journey_destiny: String::new(),
        }
    }
}

/// `errors` with one more violation under `field` where `broken` holds.
pub open spec fn flagged(
    errors: FieldViolations,
    broken: bool,
    field: Seq<char>,
    code: Seq<char>,
) -> FieldViolations {
    if broken {
        errors.insert(field, recorded(errors, field).push((code, None)))
    } else {
        errors
    }
}

/// Whether `errors` holds, under `field`, the violation with `code` and no
/// message yet.
pub open spec fn tagged(errors: FieldViolations, field: Seq<char>, code: Seq<char>) -> bool {
    errors.contains_key(field) && errors[field].contains((code, None))
}

/// Whether `errors` holds under `field` the one violation with `code` where
/// `broken` holds, and nothing under `field` where it does not.
pub open spec fn sole(
    errors: FieldViolations,
    field: Seq<char>,
    code: Seq<char>,
    broken: bool,
) -> bool {
    if broken {
        errors.contains_key(field) && errors[field] == seq![(code, None::<Seq<char>>)]
    } else {
        !errors.contains_key(field)
    }
}

impl JourneyForm {
    /// Whether the title has from 5 to 40 characters.
    pub open spec fn title_ok(&self) -> bool {
        5 <= self.title@.len() <= 40
    }

    /// Whether the source code stands for a source.
    pub open spec fn source_ok(&self) -> bool {
        JourneySource::of_code(self.source) is Some
    }

    /// Whether the destiny is an identifier.
    pub open spec fn journey_destiny_ok(&self) -> bool {
        identifier(self.journey_destiny@)
    }

    /// The violations of the form, given whether its image address and its
    /// link are URLs. Every field is checked, whatever the others gave.
    pub open spec fn violations_given(&self, image_url_ok: bool, link_ok: bool) -> FieldViolations {
        let none = Map::<Seq<char>, Seq<(Seq<char>, Option<Seq<char>>)>>::empty();
        let a = flagged(none, !self.title_ok(), "title"@, "adventure-journey-valid-title"@);
        let b = flagged(a, !image_url_ok, "image_url"@, "adventure-journey-valid-image_url"@);
        let c = flagged(b, !link_ok, "link"@, "adventure-journey-valid-link"@);
        let d = flagged(c, !self.source_ok(), "source"@, "adventure-journey-valid-source"@);
        flagged(
            d,
            !self.journey_destiny_ok(),
            "journey_destiny"@,
            "adventure-journey-valid-journey_destiny"@,
        )
    }

    /// A form is without violations exactly where every field keeps its
    /// rule.
    pub proof fn lemma_clean_form(&self, image_url_ok: bool, link_ok: bool)
        ensures
            clean(self.violations_given(image_url_ok, link_ok)) <==> self.title_ok()
                && image_url_ok && link_ok && self.source_ok() && self.journey_destiny_ok(),
    {
        let none = Map::<Seq<char>, Seq<(Seq<char>, Option<Seq<char>>)>>::empty();
        let a = flagged(none, !self.title_ok(), "title"@, "adventure-journey-valid-title"@);
        let b = flagged(a, !image_url_ok, "image_url"@, "adventure-journey-valid-image_url"@);
        let c = flagged(b, !link_ok, "link"@, "adventure-journey-valid-link"@);
        let d = flagged(c, !self.source_ok(), "source"@, "adventure-journey-valid-source"@);
        let e = flagged(
            d,
            !self.journey_destiny_ok(),
            "journey_destiny"@,
            "adventure-journey-valid-journey_destiny"@,
        );
        if !self.title_ok() {
            assert(a.contains_key("title"@));
        }
        if !image_url_ok {
            assert(b.contains_key("image_url"@));
        }
        if !link_ok {
            assert(c.contains_key("link"@));
        }
        if !self.source_ok() {
            assert(d.contains_key("source"@));
        }
        if !self.journey_destiny_ok() {
            assert(e.contains_key("journey_destiny"@));
        }
    }

    /// Every field is reported by itself: a field whose rule is broken holds
    /// the one violation of that rule, and a field whose rule is kept holds
    /// none, whatever the other fields are.
    pub proof fn lemma_violations_by_field(&self, image_url_ok: bool, link_ok: bool)
        ensures
            sole(
                self.violations_given(image_url_ok, link_ok),
                "title"@,
                "adventure-journey-valid-title"@,
                !self.title_ok(),
            ),
            sole(
                self.violations_given(image_url_ok, link_ok),
                "image_url"@,
                "adventure-journey-valid-image_url"@,
                !image_url_ok,
            ),
            sole(
                self.violations_given(image_url_ok, link_ok),
                "link"@,
                "adventure-journey-valid-link"@,
                !link_ok,
            ),
            sole(
                self.violations_given(image_url_ok, link_ok),
                "source"@,
                "adventure-journey-valid-source"@,
                !self.source_ok(),
            ),
            sole(
                self.violations_given(image_url_ok, link_ok),
                "journey_destiny"@,
                "adventure-journey-valid-journey_destiny"@,
                !self.journey_destiny_ok(),
            ),
    {
        reveal_strlit("title");
        reveal_strlit("image_url");
        reveal_strlit("link");
        reveal_strlit("source");
        reveal_strlit("journey_destiny");
        assert("title"@.len() == 5);
        assert("image_url"@.len() == 9);
        assert("link"@.len() == 4);
        assert("source"@.len() == 6);
        assert("journey_destiny"@.len() == 15);
        let none = Map::<Seq<char>, Seq<(Seq<char>, Option<Seq<char>>)>>::empty();
        let a = flagged(none, !self.title_ok(), "title"@, "adventure-journey-valid-title"@);
        let b = flagged(a, !image_url_ok, "image_url"@, "adventure-journey-valid-image_url"@);
        let c = flagged(b, !link_ok, "link"@, "adventure-journey-valid-link"@);
        let d = flagged(c, !self.source_ok(), "source"@, "adventure-journey-valid-source"@);
        assert(sole(a, "title"@, "adventure-journey-valid-title"@, !self.title_ok()));
        assert(sole(b, "image_url"@, "adventure-journey-valid-image_url"@, !image_url_ok));
        assert(sole(c, "link"@, "adventure-journey-valid-link"@, !link_ok));
        assert(sole(d, "source"@, "adventure-journey-valid-source"@, !self.source_ok()));
    }

    /// Checks the fields of the form, given whether its image address and its
    /// link are URLs. The outcome is `Ok` where every field keeps its rule,
    /// and holds the violation of every field that does not otherwise: a
    /// title of fewer than 5 or more than 40 characters is reported under
    /// `title`, an image address or a link that is no URL under its field.
    pub fn check(&self, image_url_ok: bool, link_ok: bool) -> (outcome: Result<
        (),
        ValidationErrors,
    >)
        ensures
            outcome is Ok <==> self.title_ok() && image_url_ok && link_ok && self.source_ok()
                && self.journey_destiny_ok(),
            outcome matches Err(errors) ==> field_errors_of(errors) == self.violations_given(
                image_url_ok,
                link_ok,
            ) && nested_fields_of(errors) == Set::<Seq<char>>::empty(),
            !self.title_ok() ==> (outcome matches Err(errors) && tagged(
                field_errors_of(errors),
                "title"@,
                "adventure-journey-valid-title"@,
            )),
            !image_url_ok ==> (outcome matches Err(errors) && tagged(
                field_errors_of(errors),
                "image_url"@,
                "adventure-journey-valid-image_url"@,
            )),
            !link_ok ==> (outcome matches Err(errors) && tagged(
                field_errors_of(errors),
                "link"@,
                "adventure-journey-valid-link"@,
            )),
    {
        proof {
            self.lemma_violations_by_field(image_url_ok, link_ok);
            let found = self.violations_given(image_url_ok, link_ok);
            if !self.title_ok() {
                assert(found["title"@][0] == ("adventure-journey-valid-title"@, None::<Seq<char>>));
            }
            if !image_url_ok {
                assert(found["image_url"@][0] == (
                    "adventure-journey-valid-image_url"@,
                    None::<Seq<char>>,
                ));
            }
            if !link_ok {
                assert(found["link"@][0] == ("adventure-journey-valid-link"@, None::<Seq<char>>));
            }
        }
        let mut errors = ValidationErrors::new();
        if !length_within(self.title.as_str(), 5, 40) {
            errors.add("title", ValidationError::new("adventure-journey-valid-title"));
        }
        if !image_url_ok {
            errors.add("image_url", ValidationError::new("adventure-journey-valid-image_url"));
        }
        if !link_ok {
            errors.add("link", ValidationError::new("adventure-journey-valid-link"));
        }
        if JourneySource::from_code(self.source).is_none() {
            errors.add("source", ValidationError::new("adventure-journey-valid-source"));
        }
        if !is_identifier(self.journey_destiny.as_str()) {
            errors.add(
                "journey_destiny",
                ValidationError::new("adventure-journey-valid-journey_destiny"),
            );
        }
        if errors.is_empty() {
            Ok(())
        } else {
            Err(errors)
        }
    }
}

impl Validate for JourneyForm {
    open spec fn violations(&self) -> FieldViolations {
        self.violations_given(url_parses(self.image_url@), url_parses(self.link@))
    }

    fn validate(&self) -> (outcome: Result<(), ValidationErrors>)
        ensures
            !self.title_ok() ==> (outcome matches Err(errors) && tagged(
                field_errors_of(errors),
                "title"@,
                "adventure-journey-valid-title"@,
            )),
            !url_parses(self.image_url@) ==> (outcome matches Err(errors) && tagged(
                field_errors_of(errors),
                "image_url"@,
                "adventure-journey-valid-image_url"@,
            )),
            !url_parses(self.link@) ==> (outcome matches Err(errors) && tagged(
                field_errors_of(errors),
                "link"@,
                "adventure-journey-valid-link"@,
            )),
    {
        let image_url_ok = is_url(self.image_url.as_str());
        let link_ok = is_url(self.link.as_str());
        self.check(image_url_ok, link_ok)
    }
}

/// The identifier of a persisted record.
pub type ID = i64;

/// The command that records a journey.
#[derive(Debug, Clone)]
pub struct NewJourney {
    pub title: String,
    pub image_url: String,
    pub link: String,
    pub source: JourneySource,
    pub journey_destiny: String,
}

impl NewJourney {
    /// Whether the command holds the fields of `form`, the source as the one
    /// that the code of the form stands for.
    pub open spec fn mirrors(&self, form: JourneyForm) -> bool {
        &&& self.title == form.title
        &&& self.image_url == form.image_url
        &&& self.link == form.link
        &&& Some(self.source) == JourneySource::of_code(form.source)
        &&& self.journey_destiny == form.journey_destiny
    }

    /// Builds the command from the fields of a form. It fails as
    /// `InvalidSource` where the source code of the form stands for no
    /// source, and on no other form.
    pub fn from_form(form: JourneyForm) -> (outcome: Result<NewJourney, AppError>)
        ensures
            form.source_ok() ==> (outcome matches Ok(journey) && journey.mirrors(form)),
            !form.source_ok() ==> outcome matches Err(AppError::InvalidSource),
    {
        match JourneySource::from_code(form.source) {
            Some(source) => Ok(
                NewJourney {
                    title: form.title,
                    image_url: form.image_url,
                    link: form.link,
                    source,
                    journey_destiny: form.journey_destiny,
                },
            ),
            None => Err(AppError::InvalidSource),
        }
    }
}

/// What the client is told once a journey is recorded.
#[derive(Debug, Clone, Copy, PartialEq, Eq, Structural)]
pub struct JourneyResponse {
    pub id: ID,
}

/// The response to a request whose command was handed to the domain layer,
/// given what persisting it gave: the new identifier, or the failure as a
/// request reports it.
pub open spec fn response_to(outcome: Result<ID, DomainError>) -> Result<
    JourneyResponse,
    AppError,
> {
    match outcome {
        Ok(id) => Ok(JourneyResponse { id }),
        Err(e) => Err(e.reported()),
    }
}

/// Recording is not idempotent. Two requests with the same form hand the
/// domain layer the same command, each its own: nothing in a command tells a
/// repeated request from a new one. And where the domain layer stores the
/// two under different identifiers, the two responses differ.
pub proof fn lemma_recording_twice(
    form: JourneyForm,
    first: NewJourney,
    second: NewJourney,
    first_id: ID,
    second_id: ID,
)
    requires
        first.mirrors(form),
        second.mirrors(form),
        first_id != second_id,
    ensures
        first == second,
        response_to(Ok(first_id)) is Ok,
        response_to(Ok(second_id)) is Ok,
        response_to(Ok(first_id)) != response_to(Ok(second_id)),
{
}

/// The first stop of recording a journey: the acting user has to be looked up
/// by name.
pub struct UserLookup {
    username: String,
    form: JourneyForm,
}

/// The second stop of recording a journey: the user is known, and the command
/// waits to be persisted for that user.
pub struct JourneyInsert<U> {
    user: U,
    journey: NewJourney,
}

/// Starts recording a journey for an authenticated request with a validated
/// form: the user named by the claims is to be looked up.
pub fn journey(form: ValidatedJson<JourneyForm>, auth: JwtAuth) -> (lookup: UserLookup)
    ensures
        lookup.username() == auth.0.sub@,
        lookup.form() == form.value(),
{
    let JwtAuth(auth_user) = auth;
    UserLookup { username: auth_user.sub, form: form.into_inner() }
}

impl UserLookup {
    #[verifier::type_invariant]
    spec fn valid(self) -> bool {
        clean(self.form.violations())
    }

    /// The name to look up.
    pub closed spec fn username(&self) -> Seq<char> {
        self.username@
    }

    /// The form that waits for the user.
    pub closed spec fn form(&self) -> JourneyForm {
        self.form
    }

    /// The name of the user to look up.
    pub fn name(&self) -> (name: &str)
        ensures
            name@ == self.username(),
    {
        self.username.as_str()
    }

    /// Goes on with what the lookup gave. With a user, the command is built
    /// from the form and waits to be persisted for that user; a validated
    /// form always yields one. Without, the failure of the lookup is the
    /// failure of the request.
    pub fn resolved<U>(self, found: Result<U, DomainError>) -> (outcome: Result<
        JourneyInsert<U>,
        AppError,
    >)
        ensures
            found matches Ok(user) ==> (outcome matches Ok(insert) && insert.user() == user
                && insert.journey().mirrors(self.form())),
            found matches Err(e) ==> outcome matches Err(failure) && failure == e.reported(),
    {
        proof {
            use_type_invariant(&self);
        }
        match found {
            Err(e) => Err(AppError::from_domain(e)),
            Ok(user) => {
                proof {
                    self.form.lemma_clean_form(
                        url_parses(self.form.image_url@),
                        url_parses(self.form.link@),
                    );
                }
                match NewJourney::from_form(self.form) {
                    Ok(journey) => Ok(JourneyInsert { user, journey }),
                    Err(e) => Err(e),
                }
            },
        }
    }
}

impl<U> JourneyInsert<U> {
    /// The user who records the journey.
    pub closed spec fn user(&self) -> U {
        self.user
    }

    /// The command to persist.
    pub closed spec fn journey(&self) -> NewJourney {
        self.journey
    }

    /// The user and the command, for the domain layer to persist.
    pub fn command(&self) -> (command: (&U, &NewJourney))
        ensures
            *command.0 == self.user(),
            *command.1 == self.journey(),
    {
        (&self.user, &self.journey)
    }

    /// Closes the request with what persisting gave: the response with the
    /// new identifier, or the failure of the domain layer. Nothing is tried
    /// again.
    pub fn stored(self, outcome: Result<ID, DomainError>) -> (response: Result<
        JourneyResponse,
        AppError,
    >)
        ensures
            response == response_to(outcome),
    {
        match outcome {
            Ok(id) => Ok(JourneyResponse { id }),
            Err(e) => Err(AppError::from_domain(e)),
        }
    }
}

} // verus!
