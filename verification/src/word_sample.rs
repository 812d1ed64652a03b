//! A ready-made keyed sample type: two little-endian machine words, a key
//! word and a value word, under the plain CDR little-endian encoding tag.
//! It gives the pipeline one fully specified adapter to run against.

use vstd::prelude::*;

use crate::dispatch::{DeserializerAdapter, KeyFromBytes, SeedDeserializerAdapter};
use crate::ids::{KeyHash, RepresentationIdentifier};
use crate::keys::{Key, Keyed};

verus! {

/// A 64-bit word read little-endian from `bytes` at offset `off`.
pub open spec fn le64_spec(bytes: Seq<u8>, off: int) -> u64 {
    (bytes[off] as u64) | ((bytes[off + 1] as u64) << 8u64) | ((bytes[off + 2] as u64) << 16u64)
        | ((bytes[off + 3] as u64) << 24u64) | ((bytes[off + 4] as u64) << 32u64) | ((bytes[off + 5]
        as u64) << 40u64) | ((bytes[off + 6] as u64) << 48u64) | ((bytes[off + 7] as u64) << 56u64)
}

/// Reads a 64-bit word little-endian.
fn le64(bytes: &Vec<u8>, off: usize) -> (w: u64)
    requires
        off + 8 <= bytes@.len(),
    ensures
        w == le64_spec(bytes@, off as int),
{
    let n = bytes.len();
    assert(off + 8 <= n);
    (bytes[off] as u64) | ((bytes[off + 1] as u64) << 8u64) | ((bytes[off + 2] as u64) << 16u64) | (
    (bytes[off + 3] as u64) << 24u64) | ((bytes[off + 4] as u64) << 32u64) | ((bytes[off + 5]
        as u64) << 40u64) | ((bytes[off + 6] as u64) << 48u64) | ((bytes[off + 7] as u64) << 56u64)
}

/// The key of a word sample: one machine word.
#[derive(Clone, Copy, PartialEq, Eq, Structural, Debug)]
pub struct WordKey {
    pub value: u64,
}

impl Key for WordKey {
    /// A word key is already fixed-width; its digest is the word itself.
    open spec fn hash_spec(&self) -> KeyHash {
        KeyHash { value: self.value }
    }

    fn hash_key(&self) -> (h: KeyHash) {
        KeyHash { value: self.value }
    }

    fn clone_key(&self) -> (k: WordKey) {
        WordKey { value: self.value }
    }
}

/// A keyed sample of two machine words.
#[derive(Clone, Copy, PartialEq, Eq, Structural, Debug)]
pub struct WordSample {
    pub key: u64,
    pub value: u64,
}

impl Keyed<WordKey> for WordSample {
    open spec fn key_spec(&self) -> WordKey {
        WordKey { value: self.key }
    }

    fn key(&self) -> (k: WordKey) {
        WordKey { value: self.key }
    }
}

/// Adapter for word samples: accepts the plain CDR little-endian tag only;
/// a payload is exactly 16 bytes (key word, then value word), a serialized
/// key exactly 8.
pub struct WordSampleAdapter {}

impl KeyFromBytes<WordSample, WordKey> for WordSampleAdapter {
    open spec fn key_decode_spec(bytes: Seq<u8>, enc: RepresentationIdentifier) -> Option<
        WordKey,
    > {
        if enc.value == 1 && bytes.len() == 8 {
            Some(WordKey { value: le64_spec(bytes, 0) })
        } else {
            None
        }
    }

    fn key_from_bytes(bytes: &Vec<u8>, enc: RepresentationIdentifier) -> (r: Option<WordKey>) {
        if enc.value == 1 && bytes.len() == 8 {
            Some(WordKey { value: le64(bytes, 0) })
        } else {
            None
        }
    }
}

impl DeserializerAdapter<WordSample, WordKey> for WordSampleAdapter {
    open spec fn supported_spec() -> Seq<RepresentationIdentifier> {
        seq![RepresentationIdentifier { value: 1 }]
    }

    open spec fn decode_spec(bytes: Seq<u8>, enc: RepresentationIdentifier) -> Option<WordSample> {
        if enc.value == 1 && bytes.len() == 16 {
            Some(WordSample { key: le64_spec(bytes, 0), value: le64_spec(bytes, 8) })
        } else {
            None
        }
    }

    fn supported_encodings() -> (v: Vec<RepresentationIdentifier>) {
        let mut v: Vec<RepresentationIdentifier> = Vec::new();
        v.push(RepresentationIdentifier { value: 1 });
        proof {
            assert(v@ =~= seq![RepresentationIdentifier { value: 1 }]);
        }
        v
    }

    fn from_bytes(bytes: &Vec<u8>, enc: RepresentationIdentifier) -> (r: Option<WordSample>) {
        if enc.value == 1 && bytes.len() == 16 {
            Some(WordSample { key: le64(bytes, 0), value: le64(bytes, 8) })
        } else {
            None
        }
    }
}

impl SeedDeserializerAdapter<WordSample, WordKey, u64> for WordSampleAdapter {
    open spec fn seed_supported_spec() -> Seq<RepresentationIdentifier> {
        seq![RepresentationIdentifier { value: 1 }]
    }

    /// The seed is a mask XOR-ed off the value word: a minimal stateful
    /// decode. The key word is decoded statelessly.
    open spec fn decode_seed_spec(seed: u64, bytes: Seq<u8>, enc: RepresentationIdentifier)
        -> Option<WordSample> {
        if enc.value == 1 && bytes.len() == 16 {
            Some(WordSample { key: le64_spec(bytes, 0), value: le64_spec(bytes, 8) ^ seed })
        } else {
            None
        }
    }

    fn seed_supported_encodings() -> (v: Vec<RepresentationIdentifier>) {
        let mut v: Vec<RepresentationIdentifier> = Vec::new();
        v.push(RepresentationIdentifier { value: 1 });
        proof {
            assert(v@ =~= seq![RepresentationIdentifier { value: 1 }]);
        }
        v
    }

    fn from_bytes_seed(seed: u64, bytes: &Vec<u8>, enc: RepresentationIdentifier) -> (r: Option<
        WordSample,
    >) {
        if enc.value == 1 && bytes.len() == 16 {
            Some(WordSample { key: le64(bytes, 0), value: le64(bytes, 8) ^ seed })
        } else {
            None
        }
    }
}

/// Adapter for no-key topics whose payload is one little-endian word:
/// accepts the plain CDR little-endian tag; a payload is exactly 8 bytes.
pub struct WordValueAdapter {}

impl crate::no_key::DeserializerAdapter<u64> for WordValueAdapter {
    open spec fn supported_spec() -> Seq<RepresentationIdentifier> {
        seq![RepresentationIdentifier { value: 1 }]
    }

    open spec fn decode_spec(bytes: Seq<u8>, enc: RepresentationIdentifier) -> Option<u64> {
        if enc.value == 1 && bytes.len() == 8 {
            Some(le64_spec(bytes, 0))
        } else {
            None
        }
    }

    fn supported_encodings() -> (v: Vec<RepresentationIdentifier>) {
        let mut v: Vec<RepresentationIdentifier> = Vec::new();
        v.push(RepresentationIdentifier { value: 1 });
        proof {
            assert(v@ =~= seq![RepresentationIdentifier { value: 1 }]);
        }
        v
    }

    fn from_bytes(bytes: &Vec<u8>, enc: RepresentationIdentifier) -> (r: Option<u64>) {
        if enc.value == 1 && bytes.len() == 8 {
            Some(le64(bytes, 0))
        } else {
            None
        }
    }
}

} // verus!
