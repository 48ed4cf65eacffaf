//! Text that must not reach a log.
use secrecy::ExposeSecret;
use vstd::prelude::*;

verus! {

/// The text that a secret holds.
pub uninterp spec fn secret_text(secret: SecretString) -> Seq<char>;

/// A secret text, held by `secrecy::SecretString`: it is wiped from memory when it is dropped, and
/// `Debug` prints a placeholder in its place.
#[verifier::external_body]
#[derive(Debug)]
pub struct SecretString {
    inner: secrecy::SecretString,
}

impl View for SecretString {
    type V = Seq<char>;

    open spec fn view(&self) -> Seq<char> {
        secret_text(*self)
    }
}

/// `secrecy::SecretString::from` on a `String` boxes the text as it is.
#[verifier::external_body]
fn seal(text: String) -> (secret: SecretString)
    ensures
        secret_text(secret) == text@,
{
    SecretString { inner: secrecy::SecretString::from(text) }
}

/// `secrecy::ExposeSecret::expose_secret` hands out the boxed text.
#[verifier::external_body]
fn unseal(secret: &SecretString) -> (text: &str)
    ensures
        text@ == secret_text(*secret),
{
    secret.inner.expose_secret()
}

impl SecretString {
    /// A secret that holds `text`.
    pub fn from(text: String) -> (secret: SecretString)
        ensures
            secret@ == text@,
    {
        seal(text)
    }

    /// The text, for the one place that has to compare or send it.
    pub fn expose_secret(&self) -> (text: &str)
        ensures
            text@ == self@,
    {
        unseal(self)
    }
}

impl Clone for SecretString {
    fn clone(&self) -> (copy: SecretString)
        ensures
            copy@ == self@,
    {
        seal(String::from_str(unseal(self)))
    }
}

/// A secret gives out the very text that was put into it, and so does its copy.
pub proof fn secret_gives_out_what_was_put_in(
    text: String,
    secret: SecretString,
    found: &str,
    copy: SecretString,
    copied: &str,
)
    requires
        call_ensures(SecretString::from, (text,), secret),
        call_ensures(SecretString::expose_secret, (&secret,), found),
        call_ensures(<SecretString as Clone>::clone, (&secret,), copy),
        call_ensures(SecretString::expose_secret, (&copy,), copied),
    ensures
        found@ == text@ && copied@ == text@,
{
}

} // verus!
