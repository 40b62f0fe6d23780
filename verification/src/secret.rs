use vstd::prelude::*;

use secrecy::{ExposeSecret, Secret};

verus! {

/// A text kept in a `secrecy::Secret<String>`: left out of debug output and
/// wiped from memory when dropped. The text is reached only through the
/// methods below.
#[verifier::external_body]
pub struct SecretText {
    inner: Secret<String>,
}

/// The text that a `SecretText` holds.
pub uninterp spec fn secret_text(secret: SecretText) -> Seq<char>;

impl SecretText {
    /// Calls `Secret::new`, which stores its argument as the secret's value.
    #[verifier::external_body]
    pub(crate) fn new(text: String) -> (r: SecretText)
        ensures
            secret_text(r) == text@,
    {
        SecretText { inner: Secret::new(text) }
    }

    /// Calls `ExposeSecret::expose_secret`, which hands out a reference to the
    /// secret's stored value.
    #[verifier::external_body]
    pub(crate) fn expose_secret(&self) -> (r: &String)
        ensures
            r@ == secret_text(*self),
    {
        self.inner.expose_secret()
    }

    /// Keeps `text` as a secret.
    pub fn from_text(text: String) -> (r: SecretText)
        ensures
            secret_text(r) == text@,
    {
        SecretText::new(text)
    }

    /// The text that the secret holds.
    pub fn expose(&self) -> (r: &String)
        ensures
            r@ == secret_text(*self),
    {
        self.expose_secret()
    }
}


} // verus!
