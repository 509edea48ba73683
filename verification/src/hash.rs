//! Provides a type for representing the hash contained inside a `GitOid`.

use vstd::prelude::*;

use crate::encoding::{encode_lower, hex_encoding, is_lower_hex_digit};

verus! {

/// The hash produced for a `GitOid`: a read-only view of digest bytes that
/// someone else owns.
///
/// The length of the digest and the algorithm that made it are the business
/// of whoever builds the hash: any bytes are accepted, none included.
pub struct Hash<'h>(&'h [u8]);

impl<'h> View for Hash<'h> {
    type V = Seq<u8>;

    /// The bytes the hash looks at, in order.
    closed spec fn view(&self) -> Seq<u8> {
        self.0@
    }
}

impl<'h> Hash<'h> {
    /// The text that stands for the hash: the lowercase hexadecimal notation
    /// of its bytes.
    pub open spec fn hex(&self) -> Seq<char> {
        hex_encoding(self@)
    }

    /// Construct a new `Hash` for the given bytes.
    pub fn new(bytes: &[u8]) -> (hash: Hash<'_>)
        ensures
            hash@ == bytes@,
    {
        Hash(bytes)
    }

    /// Get the hash as a slice of bytes.
    pub fn as_bytes(&self) -> (bytes: &[u8])
        ensures
            bytes@ == self@,
    {
        self.0
    }

    /// Get a hexadecimal-encoded representation of the hash.
    pub fn as_hex(&self) -> (text: String)
        ensures
            text@ == self.hex(),
            text@.len() == 2 * self@.len(),
            forall|i: int| 0 <= i < text@.len() ==> is_lower_hex_digit(#[trigger] text@[i]),
    {
        encode_lower(self.0)
    }

    /// Render the hash as text, which is its hexadecimal representation: the
    /// same string that `as_hex` returns.
    pub fn to_string(&self) -> (text: String)
        ensures
            text@ == self.hex(),
    {
        self.as_hex()
    }

    /// Whatever `as_bytes` returns for a hash that `new` built holds the bytes
    /// that were handed to `new`, the empty slice included.
    pub proof fn lemma_as_bytes_of_new(bytes: &[u8], hash: Hash, read: &[u8])
        requires
            call_ensures(Hash::new, (bytes,), hash),
            call_ensures(Hash::as_bytes, (&hash,), read),
        ensures
            read@ == bytes@,
    {
    }

    /// `as_hex` is deterministic: whatever two calls on hashes over the same
    /// bytes return, the two strings hold the same text.
    pub proof fn lemma_as_hex_deterministic(self, other: Hash, first: String, second: String)
        requires
            self@ == other@,
            call_ensures(Hash::as_hex, (&self,), first),
            call_ensures(Hash::as_hex, (&other,), second),
        ensures
            first@ == second@,
    {
    }

    /// The text that `to_string` renders is the text that `as_hex` returns.
    pub proof fn lemma_to_string_is_as_hex(self, rendered: String, encoded: String)
        requires
            call_ensures(Hash::to_string, (&self,), rendered),
            call_ensures(Hash::as_hex, (&self,), encoded),
        ensures
            rendered@ == encoded@,
    {
    }
}

// Deref to a slice of bytes.
impl<'h> core::ops::Deref for Hash<'h> {
    type Target = [u8];

    fn deref(&self) -> (bytes: &[u8])
        ensures
            bytes@ == self@,
    {
        self.as_bytes()
    }
}

} // verus!
