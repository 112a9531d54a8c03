//! SHA-256 digests of files, and their comparison with the expected ones.

use crate::progress::Verification;
use crate::text;
use sha2::Digest;
use vstd::prelude::*;

verus! {

/// `sha2::Sha256`, a hasher that takes its message in pieces.
#[verifier::external_type_specification]
#[verifier::external_body]
pub struct ExSha256(sha2::Sha256);

/// The SHA-256 digest of a message, as `sha2::Sha256` computes it.
pub uninterp spec fn sha256(message: Seq<u8>) -> Seq<u8>;

/// The message that a hasher has taken in so far.
pub uninterp spec fn absorbed(hasher: sha2::Sha256) -> Seq<u8>;

/// `sha2::Digest::new` on `Sha256`: a hasher that has taken in nothing.
#[verifier::external_body]
fn new_hasher() -> (hasher: sha2::Sha256)
    ensures
        absorbed(hasher) == Seq::<u8>::empty(),
{
    sha2::Sha256::new()
}

/// `sha2::Digest::update` on `Sha256`: the piece is added to the end of the message.
#[verifier::external_body]
fn update_hasher(hasher: &mut sha2::Sha256, piece: &[u8])
    ensures
        absorbed(*final(hasher)) == absorbed(*old(hasher)) + piece@,
{
    hasher.update(piece);
}

/// `sha2::Digest::finalize` on `Sha256`: the 32 bytes of the digest of the message.
#[verifier::external_body]
fn finalize_hasher(hasher: sha2::Sha256) -> (digest: Vec<u8>)
    ensures
        digest@ == sha256(absorbed(hasher)),
        digest@.len() == 32,
{
    hasher.finalize().to_vec()
}

/// The outcome of comparing a digest with the expected one. The white space around the expected
/// digest and the case of its letters do not matter.
pub open spec fn verdict(expected: Option<Seq<char>>, sha256: Seq<char>) -> Verification {
    match expected {
        None => Verification::Skipped,
        Some(wanted) => if text::same_ignoring_ascii_case(text::trim(wanted), sha256) {
            Verification::Matched
        } else {
            Verification::Mismatch
        },
    }
}

/// The text of an expected digest, where there is one.
pub open spec fn text_of(expected: Option<String>) -> Option<Seq<char>> {
    match expected {
        None => None,
        Some(wanted) => Some(wanted@),
    }
}

/// Compares a digest with the expected one.
pub fn verify(expected: &Option<String>, sha256: &String) -> (verified: Verification)
    ensures
        verified == verdict(text_of(*expected), sha256@),
{
    match expected {
        None => Verification::Skipped,
        Some(wanted) => {
            let wanted: Vec<char> = text::chars_of(wanted.as_str());
            let found: Vec<char> = text::chars_of(sha256.as_str());
            let bounds: (usize, usize) = text::trim_bounds(&wanted);
            if text::eq_ignoring_ascii_case(&wanted, bounds.0, bounds.1, &found) {
                Verification::Matched
            } else {
                Verification::Mismatch
            }
        },
    }
}

/// The size of the pieces in which a file is read to be hashed.
pub const PIECE: usize = 65536;

/// The digest of a file that is read piece by piece.
pub struct FileHash {
    hasher: sha2::Sha256,
}

impl View for FileHash {
    type V = Seq<u8>;

    /// The part of the file that was read.
    closed spec fn view(&self) -> Seq<u8> {
        absorbed(self.hasher)
    }
}

impl FileHash {
    /// Nothing has been read yet.
    pub fn new() -> (hash: FileHash)
        ensures
            hash@ == Seq::<u8>::empty(),
    {
        FileHash { hasher: new_hasher() }
    }

    /// Takes in what one read left at the front of `buffer`, and says whether to read on: a read
    /// of nothing is the end of the file.
    pub fn feed(&mut self, buffer: &[u8], read: usize) -> (more: bool)
        requires
            read <= buffer@.len(),
        ensures
            more == (read != 0),
            final(self)@ == old(self)@ + buffer@.take(read as int),
    {
        if read == 0 {
            assert(self@ == old(self)@ + buffer@.take(0));
            return false;
        }
        let piece: &[u8] = vstd::slice::slice_subrange(buffer, 0, read);
        assert(piece@ == buffer@.take(read as int));
        update_hasher(&mut self.hasher, piece);
        true
    }

    /// The digest of what was read, in lower-case hexadecimal digits.
    pub fn finish(self) -> (digest: String)
        ensures
            digest@ == text::hex(sha256(self@)),
            digest@.len() == 64,
    {
        let bytes: Vec<u8> = finalize_hasher(self.hasher);
        let mut digest: String = String::new();
        let mut i: usize = 0;
        while i < bytes.len()
            invariant
                i <= bytes@.len(),
                digest@ == text::hex(bytes@.take(i as int)),
            decreases bytes.len() - i,
        {
            text::push_hex(&mut digest, bytes[i]);
            i = i + 1;
            assert(digest@ == text::hex(bytes@.take(i as int)));
        }
        assert(bytes@.take(i as int) == bytes@);
        digest
    }
}

} // verus!
