use vstd::prelude::*;
use vstd::string::*;

use crate::error::AuthError;

verus! {

/// What a credential is: a user name and a secret.
pub struct CredentialView {
    pub username: Seq<char>,
    pub secret: Seq<char>,
}

/// A basic-auth principal for one push: a user name and an opaque token or
/// password. It carries no `Debug`, so that the secret is not printed.
#[derive(PartialEq, Eq)]
pub struct Credential {
    username: String,
    secret: String,
}

impl View for Credential {
    type V = CredentialView;

    closed spec fn view(&self) -> CredentialView {
        CredentialView { username: self.username@, secret: self.secret@ }
    }
}

impl Credential {
    #[verifier::type_invariant]
    spec fn named(self) -> bool {
        self@.username.len() > 0
    }

    /// Makes the credential of `username` with `secret`.
    ///
    /// An empty secret is accepted. An empty user name is refused, and
    /// nothing else is.
    pub fn of(username: &str, secret: &str) -> (result: Result<Credential, AuthError>)
        ensures
            match result {
                Ok(credential) => {
                    &&& username@.len() > 0
                    &&& credential@.username == username@
                    &&& credential@.secret == secret@
                },
                Err(e) => username@.len() == 0 && e == AuthError::EmptyUsername,
            },
    {
        if username.is_empty() {
            return Err(AuthError::EmptyUsername);
        }
        Ok(Credential { username: String::from_str(username), secret: String::from_str(secret) })
    }

    /// The user name, which is never empty.
    pub fn username(&self) -> (r: &str)
        ensures
            r@ == self@.username,
            r@.len() > 0,
    {
        proof {
            use_type_invariant(self);
        }
        self.username.as_str()
    }

    /// The token or password.
    pub fn secret(&self) -> (r: &str)
        ensures
            r@ == self@.secret,
    {
        self.secret.as_str()
    }
}

} // verus!
