//! Capabilities of topic key types and of keyed payload types.

use vstd::prelude::*;

use crate::ids::KeyHash;

verus! {

/// A topic key: a value that identifies an instance of a keyed topic.
///
/// A key can be hashed to the fixed-width digest carried by dispose-by-hash
/// messages, and duplicated when a remembered key is handed out again.
/// The hash must depend on the key value alone, so that a remembered key
/// resolves every later dispose-by-hash for the same instance.
pub trait Key: Sized {
    /// The digest of this key, as a mathematical function of its value.
    spec fn hash_spec(&self) -> KeyHash;

    /// Computes the digest of this key.
    fn hash_key(&self) -> (h: KeyHash)
        ensures
            h == self.hash_spec(),
    ;

    /// Hands out a copy of this key, equal to the original.
    fn clone_key(&self) -> (k: Self)
        ensures
            k == *self,
    ;
}

/// A payload type whose values carry a key of type `K`.
pub trait Keyed<K: Key>: Sized {
    /// The key of this value, as a mathematical function of the value.
    spec fn key_spec(&self) -> K;

    /// Extracts the key of this value.
    fn key(&self) -> (k: K)
        ensures
            k == self.key_spec(),
    ;
}

} // verus!
