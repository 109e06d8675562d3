//! A basic wrapper for secret values.
//!
//! The only way at the data inside a `Protected` value is `expose` (or
//! `into_inner`), which keeps accidental leakage out and makes every access
//! easy to audit. Byte secrets can be erased on demand with `zeroize`. The
//! I/O layer around the library keeps its own copy of this type for
//! serialization and redacted debug formatting.

use vstd::prelude::*;

verus! {

/// A wrapper holding a secret value out of casual reach.
pub struct Protected<T>(T);

/// Relies on `zeroize::Zeroize` for `Vec<u8>`: it zeroizes the elements and
/// the spare capacity, then clears the vector.
#[verifier::external_body]
fn zeroize_bytes(v: &mut Vec<u8>)
    ensures
        final(v)@.len() == 0,
{
    zeroize::Zeroize::zeroize(v);
}

impl<T> Protected<T> {
    /// The wrapped secret, as a ghost value: contracts speak of it, code
    /// reaches it only through `expose` and `into_inner`.
    pub closed spec fn spec_expose(self) -> T {
        self.0
    }

    /// Wraps a secret value.
    pub fn new(value: T) -> (p: Self)
        ensures
            p.spec_expose() == value,
    {
        Protected(value)
    }

    /// The one way to read the secret.
    pub fn expose(&self) -> (v: &T)
        ensures
            *v == self.spec_expose(),
    {
        &self.0
    }

    /// Unwraps the secret, consuming the wrapper.
    pub fn into_inner(self) -> (v: T)
        ensures
            v == self.spec_expose(),
    {
        self.0
    }
}

impl Protected<Vec<u8>> {
    /// Securely erases a wrapped byte secret, consuming it.
    pub fn zeroize(self) {
        let mut inner = self.0;
        zeroize_bytes(&mut inner);
    }
}

} // verus!
