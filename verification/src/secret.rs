//! Opaque secrets, carried by `secrecy::SecretString`.
//!
//! A resolved API key is held behind `secrecy::SecretString`, which cannot be
//! formatted or logged directly. Declaring `secrecy::Secret<S>` to the
//! verifier is refused (its parameter is bound by the outside trait
//! `Zeroize`), so the secret sits in a private field of an opaque struct of
//! this crate. `expose_secret` is the single accessor, meant to be called
//! only where the authorization header is built.

use vstd::prelude::*;

verus! {

/// An opaque API secret. Holds a `secrecy::SecretString`; nothing of it is
/// visible to the verifier beyond [`secret_chars`].
#[verifier::external_body]
pub struct SecretKey {
    inner: secrecy::SecretString,
}

/// The characters of the string a [`SecretKey`] holds.
pub uninterp spec fn secret_chars(s: SecretKey) -> Seq<char>;

impl SecretKey {
    /// Relies on secrecy::Secret::new: it wraps the given string unchanged.
    #[verifier::external_body]
    pub fn new(value: String) -> (r: SecretKey)
        ensures
            secret_chars(r) == value@,
    {
        SecretKey { inner: secrecy::Secret::new(value) }
    }

    /// Relies on secrecy::ExposeSecret::expose_secret: it returns a
    /// reference to the wrapped string, unchanged.
    #[verifier::external_body]
    pub fn expose_secret(&self) -> (r: &String)
        ensures
            r@ == secret_chars(*self),
    {
        secrecy::ExposeSecret::expose_secret(&self.inner)
    }
}

} // verus!
