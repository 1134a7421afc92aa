//! Checksums and encodings of transferred bytes.

use vstd::prelude::*;

verus! {

/// The SHA-256 checksum of bytes.
pub uninterp spec fn sha256(bytes: Seq<u8>) -> Seq<u8>;

/// The bytes that a checksum has taken in so far.
pub uninterp spec fn taken_in(checksum: Checksum) -> Seq<u8>;

/// A checksum over bytes that arrive bit by bit: `sha2::Sha256`.
#[verifier::external_body]
pub struct Checksum {
    inner: sha2::Sha256,
}

impl Checksum {
    /// `Digest::new`: nothing has been taken in yet.
    #[verifier::external_body]
    pub(crate) fn new() -> (checksum: Checksum)
        ensures
            taken_in(checksum) == Seq::<u8>::empty(),
    {
        Checksum { inner: sha2::Digest::new() }
    }

    /// `Digest::update`: takes more bytes in, behind those that were taken in before.
    #[verifier::external_body]
    pub(crate) fn update(&mut self, bytes: &[u8])
        ensures
            taken_in(*final(self)) == taken_in(*old(self)) + bytes@,
    {
        sha2::Digest::update(&mut self.inner, bytes)
    }

    /// `Digest::finalize`: the 32 bytes of the checksum over all that was taken in.
    #[verifier::external_body]
    pub(crate) fn finish(self) -> (sum: Vec<u8>)
        ensures
            sum@ == sha256(taken_in(self)),
            sum@.len() == 32,
    {
        sha2::Digest::finalize(self.inner).to_vec()
    }
}

/// The bytes that a text encodes in standard base64; nothing where it is none.
pub uninterp spec fn base64_bytes(text: Seq<char>) -> Option<Seq<u8>>;

/// `Engine::decode` of the standard base64 engine: its result is a function of the text.
#[verifier::external_body]
pub(crate) fn base64_decode(text: &str) -> (bytes: Option<Vec<u8>>)
    ensures
        match bytes {
            Some(bytes) => base64_bytes(text@) == Some(bytes@),
            None => base64_bytes(text@) is None,
        },
{
    base64::Engine::decode(&base64::engine::general_purpose::STANDARD, text).ok()
}

} // verus!
