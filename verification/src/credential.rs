//! The credential that authorizes requests to the provider.
//!
//! The token is kept in a `secrecy::Secret`, which wipes it from memory when
//! it is dropped and keeps it out of debug output. It is read in one place,
//! [`Credential::bearer`].

use secrecy::ExposeSecret;
use secrecy::Secret;
use vstd::prelude::*;

verus! {

/// A secret token. Its debug form does not show it.
#[verifier::external_body]
#[derive(Debug)]
pub struct Credential {
    secret: Secret<String>,
}

/// The characters of the token that `credential` guards.
pub uninterp spec fn credential_text(credential: Credential) -> Seq<char>;

impl View for Credential {
    type V = Seq<char>;

    open spec fn view(&self) -> Seq<char> {
        credential_text(*self)
    }
}

/// `Secret::new`: takes ownership of the token and guards it unchanged.
#[verifier::external_body]
fn seal(token: String) -> (credential: Credential)
    ensures
        credential_text(credential) == token@,
{
    Credential { secret: Secret::new(token) }
}

/// `ExposeSecret::expose_secret`: a reference to the guarded token itself.
#[verifier::external_body]
fn expose(credential: &Credential) -> (token: &str)
    ensures
        token@ == credential_text(*credential),
{
    credential.secret.expose_secret().as_str()
}

impl Credential {
    /// Puts `token` under guard.
    pub fn new(token: String) -> (credential: Credential)
        ensures
            credential@ == token@,
    {
        seal(token)
    }

    /// The value of the `Authorization` header that presents the token:
    /// `Bearer`, a space, and the token.
    pub fn bearer(&self) -> (value: String)
        ensures
            value@ == "Bearer "@ + self@,
    {
        let mut value = "Bearer ".to_owned();
        value.append(expose(self));
        value
    }
}

} // verus!
