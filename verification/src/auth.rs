//! Who sends a request: the authorization credential and the claims decoded
//! from it.

use vstd::prelude::*;
use crate::error::AppError;

verus! {

/// The identity that a token carries.
#[derive(Debug, Clone)]
pub struct Claims {
    /// The name of the user.
    pub sub: String,
    /// When the token was issued, in seconds since the epoch.
    pub iat: u64,
    /// When the token expires, in seconds since the epoch.
    pub exp: u64,
}

impl Claims {
    /// The name of the user that the claims speak of.
    pub fn get_name(&self) -> (name: &str)
        ensures
            name@ == self.sub@,
    {
        self.sub.as_str()
    }
}

/// The claims of an authenticated request.
#[derive(Debug, Clone)]
pub struct JwtAuth(pub Claims);

/// A byte that may stand in a header value read as text: a printable ASCII
/// character, a space or a tab. This is the rule by which the `http` crate
/// reads a header value as a string.
pub open spec fn visible_ascii(b: u8) -> bool {
    32 <= b < 127 || b == 9
}

/// Whether a header value can be read as text.
pub open spec fn readable(value: Seq<u8>) -> bool {
    forall|i: int| 0 <= i < value.len() ==> visible_ascii(#[trigger] value[i])
}

/// A credential that was found in a request and waits to be decoded.
pub struct Credential {
    token: Vec<u8>,
}

impl View for Credential {
    type V = Seq<u8>;

    closed spec fn view(&self) -> Seq<u8> {
        self.token@
    }
}

impl Credential {
    #[verifier::type_invariant]
    spec fn well_formed(self) -> bool {
        readable(self.token@)
    }

    /// The text of the credential, which is what a decoder is given.
    pub fn token(&self) -> (token: &[u8])
        ensures
            token@ == self@,
            readable(token@),
    {
        proof {
            use_type_invariant(self);
        }
        self.token.as_slice()
    }

    /// Closes the extraction with what decoding the token gave: the claims
    /// where it gave any, and `AuthInvalid` where the token was refused.
    pub fn decoded(self, claims: Option<Claims>) -> (outcome: Result<JwtAuth, AppError>)
        ensures
            claims matches Some(c) ==> outcome == Ok::<JwtAuth, AppError>(JwtAuth(c)),
            claims is None ==> outcome matches Err(AppError::AuthInvalid),
    {
        match claims {
            Some(k) => Ok(JwtAuth(k)),
            None => Err(AppError::AuthInvalid),
        }
    }
}

impl JwtAuth {
    /// Looks for the credential of a request, given the value of its
    /// `Authorization` header where it has one. Without the header the
    /// request fails as `AuthMissing`; with a value that cannot be read as
    /// text it fails as `AuthInvalid`; any other value is a credential to
    /// decode.
    pub fn from_request(authorization: Option<&[u8]>) -> (outcome: Result<Credential, AppError>)
        ensures
            authorization is None ==> outcome matches Err(AppError::AuthMissing),
            authorization matches Some(value) ==> (readable(value@) ==> (outcome matches Ok(
                credential,
            ) && credential@ == value@)),
            authorization matches Some(value) ==> (!readable(value@) ==> outcome matches Err(
                AppError::AuthInvalid,
            )),
    {
        match authorization {
            None => Err(AppError::AuthMissing),
            Some(value) => {
                let mut token: Vec<u8> = Vec::new();
                let mut i: usize = 0;
                while i < value.len()
                    invariant
                        i <= value.len(),
                        authorization == Some(value),
                        token@ == value@.take(i as int),
                        readable(token@),
                    decreases value.len() - i,
                {
                    let b = value[i];
                    if !(b >= 32 && b < 127 || b == 9) {
                        return Err(AppError::AuthInvalid);
                    }
                    token.push(b);
                    assert(token@ == value@.take(i as int + 1));
                    i += 1;
                }
                assert(value@.take(value.len() as int) == value@);
                Ok(Credential { token })
            },
        }
    }
}

} // verus!
