//! Secret texts: passwords and their verifiers. They are kept in
//! `secrecy`'s box, which wipes them when dropped and does not print them.

use vstd::prelude::*;

verus! {

/// A text that must not be logged or shown.
#[verifier::external_body]
#[derive(Debug)]
pub struct SecretString {
    inner: secrecy::SecretString,
}

/// The text inside a secret.
pub uninterp spec fn secret_text(secret: SecretString) -> Seq<char>;

/// `<secrecy::SecretString as From<String>>::from`: boxes the text as it is.
#[verifier::external_body]
fn box_secret(text: String) -> (r: SecretString)
    ensures
        secret_text(r) == text@,
{
    SecretString { inner: secrecy::SecretString::from(text) }
}

/// `<secrecy::SecretString as secrecy::ExposeSecret<str>>::expose_secret`:
/// the text as it was boxed.
#[verifier::external_body]
fn unbox_secret(secret: &SecretString) -> (r: &str)
    ensures
        r@ == secret_text(*secret),
{
    secrecy::ExposeSecret::expose_secret(&secret.inner)
}

impl View for SecretString {
    type V = Seq<char>;

    open spec fn view(&self) -> Seq<char> {
        secret_text(*self)
    }
}

impl SecretString {
    /// Takes a text into keeping.
    pub fn new(text: String) -> (r: SecretString)
        ensures
            r@ == text@,
    {
        box_secret(text)
    }

    /// The text, for the one use that needs it.
    pub fn expose_secret(&self) -> (r: &str)
        ensures
            r@ == self@,
    {
        unbox_secret(self)
    }
}

} // verus!
