//! The integrity verifier: SHA-256 digests of streamed content, their hex
//! form, and the comparison with the digest that a release declares.

use crate::text::{ascii_lower, ascii_lower_exec, chars_of, fold_ascii};
use sha2::Digest;
use vstd::prelude::*;

verus! {

/// A SHA-256 computation in progress. Content is fed to it piece by piece,
/// so a file of any size is digested without being held in memory.
///
/// It holds a `sha2::Sha256`, of whose inside nothing is known here: what
/// it has taken in is told by `absorbed`, and the three functions below
/// say what the hasher does with it.
#[verifier::external_body]
pub struct Sha256Stream {
    hasher: sha2::Sha256,
}

/// The bytes that the stream has taken in so far, in order.
pub uninterp spec fn absorbed(stream: Sha256Stream) -> Seq<u8>;

/// The SHA-256 digest of `data`: what `sha2` computes for it.
pub uninterp spec fn sha256(data: Seq<u8>) -> Seq<u8>;

/// `sha2::Sha256::new` (the `Digest` trait's constructor): a hasher that has
/// taken in nothing yet.
#[verifier::external_body]
fn hasher_new() -> (stream: Sha256Stream)
    ensures
        absorbed(stream) == Seq::<u8>::empty(),
{
    Sha256Stream { hasher: sha2::Sha256::new() }
}

/// `Digest::update` on `sha2::Sha256`: the hasher processes `chunk` after
/// what it has taken in before.
#[verifier::external_body]
fn hasher_update(stream: &mut Sha256Stream, chunk: &[u8])
    ensures
        absorbed(*final(stream)) == absorbed(*old(stream)) + chunk@,
{
    stream.hasher.update(chunk)
}

/// `Digest::finalize` on `sha2::Sha256`: the digest of all that the hasher
/// has taken in, which for SHA-256 has 32 bytes.
#[verifier::external_body]
fn hasher_finalize(stream: Sha256Stream) -> (digest: Vec<u8>)
    ensures
        digest@ == sha256(absorbed(stream)),
        digest@.len() == 32,
{
    stream.hasher.finalize().to_vec()
}

/// The hex digit for `n`, which is below sixteen; letters are small.
pub open spec fn hex_digit(n: nat) -> char {
    if n < 10 {
        (48 + n) as char
    } else {
        (87 + n) as char
    }
}

/// The bytes in hex, two small digits for each, the high half first.
pub open spec fn hex_lower(bytes: Seq<u8>) -> Seq<char> {
    Seq::new(
        2 * bytes.len(),
        |i: int|
            if i % 2 == 0 {
                hex_digit(bytes[i / 2] as nat / 16)
            } else {
                hex_digit(bytes[i / 2] as nat % 16)
            },
    )
}

/// The SHA-256 digest of `data` as 64 small hex digits.
pub open spec fn digest_hex(data: Seq<u8>) -> Seq<char> {
    hex_lower(sha256(data))
}

/// `c` is a hex digit, small or capital.
pub open spec fn is_hex_digit(c: char) -> bool {
    ('0' <= c <= '9') || ('a' <= c <= 'f') || ('A' <= c <= 'F')
}

/// `s` has the form of a SHA-256 digest in hex: 64 hex digits.
pub open spec fn is_sha256_hex(s: Seq<char>) -> bool {
    s.len() == 64 && forall|i: int| 0 <= i < s.len() ==> is_hex_digit(#[trigger] s[i])
}

/// The two hex strings are the same but for the case of their letters.
pub open spec fn same_digest(a: Seq<char>, b: Seq<char>) -> bool {
    fold_ascii(a) == fold_ascii(b)
}

/// The hex digit for `n`.
fn hex_digit_exec(n: u8) -> (c: char)
    requires
        n < 16,
    ensures
        c == hex_digit(n as nat),
{
    if n < 10 {
        (48 + n) as char
    } else {
        (87 + n) as char
    }
}

/// The bytes in hex, with small letters.
pub fn to_hex(bytes: &[u8]) -> (hex: String)
    ensures
        hex@ == hex_lower(bytes@),
{
    let mut hex = String::new();
    let mut i: usize = 0;
    while i < bytes.len()
        invariant
            i <= bytes.len(),
            hex@ == hex_lower(bytes@.take(i as int)),
        decreases bytes.len() - i,
    {
        let b: u8 = bytes[i];
        hex.push(hex_digit_exec(b / 16));
        hex.push(hex_digit_exec(b % 16));
        assert(hex@ =~= hex_lower(bytes@.take(i + 1)));
        i += 1;
    }
    hex
}

impl Sha256Stream {
    /// The content that has been fed so far.
    pub open spec fn content(self) -> Seq<u8> {
        absorbed(self)
    }

    /// A digest computation of no content yet.
    pub fn new() -> (stream: Sha256Stream)
        ensures
            stream.content() == Seq::<u8>::empty(),
    {
        hasher_new()
    }

    /// Feeds the next piece of the content.
    pub fn update(&mut self, chunk: &[u8])
        ensures
            final(self).content() == old(self).content() + chunk@,
    {
        hasher_update(self, chunk)
    }

    /// The digest of the content, as 64 small hex digits. It depends on the
    /// content alone, not on the pieces in which it was fed.
    pub fn finalize(self) -> (hex: String)
        ensures
            hex@ == digest_hex(self.content()),
            is_sha256_hex(hex@),
    {
        let digest = hasher_finalize(self);
        proof {
            lemma_hex_lower_form(digest@);
        }
        to_hex(digest.as_slice())
    }
}

/// The SHA-256 digest of `data`, as 64 small hex digits.
pub fn calculate_sha256(data: &[u8]) -> (hex: String)
    ensures
        hex@ == digest_hex(data@),
        is_sha256_hex(hex@),
{
    let mut stream = Sha256Stream::new();
    stream.update(data);
    stream.finalize()
}

/// Why a digest could not be compared.
#[derive(Debug, Clone, Copy, PartialEq, Eq, Structural)]
pub enum HashError {
    /// The expected digest is not made of 64 hex digits.
    MalformedDigest,
}

impl HashError {
    /// The text that the user is shown for the error.
    pub open spec fn text(self) -> Seq<char> {
        "Expected hash is not a SHA-256 digest of 64 hex digits"@
    }

    /// The text that the user is shown for the error.
    pub fn message(&self) -> (message: String)
        ensures
            message@ == self.text(),
    {
        "Expected hash is not a SHA-256 digest of 64 hex digits".to_owned()
    }
}

/// Whether `c` is a hex digit.
fn is_hex_digit_exec(c: char) -> (yes: bool)
    ensures
        yes == is_hex_digit(c),
{
    ('0' <= c && c <= '9') || ('a' <= c && c <= 'f') || ('A' <= c && c <= 'F')
}

/// Whether `s` has the form of a SHA-256 digest in hex.
fn is_sha256_hex_exec(s: &Vec<char>) -> (yes: bool)
    ensures
        yes == is_sha256_hex(s@),
{
    if s.len() != 64 {
        return false;
    }
    let mut i: usize = 0;
    while i < s.len()
        invariant
            i <= s.len(),
            s.len() == 64,
            forall|j: int| 0 <= j < i ==> is_hex_digit(#[trigger] s@[j]),
        decreases s.len() - i,
    {
        if !is_hex_digit_exec(s[i]) {
            return false;
        }
        i += 1;
    }
    true
}

/// Whether two texts are the same but for the case of their ASCII letters.
fn same_folded(a: &Vec<char>, b: &Vec<char>) -> (same: bool)
    ensures
        same == (fold_ascii(a@) == fold_ascii(b@)),
{
    if a.len() != b.len() {
        assert(fold_ascii(a@).len() != fold_ascii(b@).len());
        return false;
    }
    let mut i: usize = 0;
    while i < a.len()
        invariant
            i <= a.len(),
            a.len() == b.len(),
            forall|j: int| 0 <= j < i ==> ascii_lower(#[trigger] a@[j]) == ascii_lower(b@[j]),
        decreases a.len() - i,
    {
        if ascii_lower_exec(a[i]) != ascii_lower_exec(b[i]) {
            assert(fold_ascii(a@)[i as int] != fold_ascii(b@)[i as int]);
            return false;
        }
        i += 1;
    }
    assert(fold_ascii(a@) =~= fold_ascii(b@));
    true
}

/// Compares the digest computed of a file with the digest expected of it,
/// without regard to the case of the hex letters.
///
/// An expected digest that is not made of 64 hex digits is an error, the
/// empty one too. A digest of the right form that differs gives `false`.
pub fn verify_file_hash(actual_hash: &str, expected_hash: &str) -> (verdict: Result<
    bool,
    HashError,
>)
    ensures
        is_sha256_hex(expected_hash@) ==> verdict == Ok::<bool, HashError>(
            same_digest(actual_hash@, expected_hash@),
        ),
        !is_sha256_hex(expected_hash@) ==> verdict == Err::<bool, HashError>(
            HashError::MalformedDigest,
        ),
{
    let expected = chars_of(expected_hash);
    if !is_sha256_hex_exec(&expected) {
        return Err(HashError::MalformedDigest);
    }
    Ok(same_folded(&chars_of(actual_hash), &expected))
}

/// Compares the digest of the content that was fed to `stream` with the
/// digest expected of it: `true` if and only if the content has that
/// digest, whatever the case of the expected digest's letters; an error
/// for an expected digest that is not made of 64 hex digits.
pub fn verify_content(stream: Sha256Stream, expected_hash: &str) -> (verdict: Result<
    bool,
    HashError,
>)
    ensures
        is_sha256_hex(expected_hash@) ==> verdict == Ok::<bool, HashError>(
            same_digest(digest_hex(stream.content()), expected_hash@),
        ),
        !is_sha256_hex(expected_hash@) ==> verdict == Err::<bool, HashError>(
            HashError::MalformedDigest,
        ),
{
    let actual = stream.finalize();
    verify_file_hash(actual.as_str(), expected_hash)
}

/// What is known of a downloaded file's integrity.
#[derive(Debug, Clone, Copy, PartialEq, Eq, Structural)]
pub enum Integrity {
    /// The file's digest is the one that the release declares.
    Verified,
    /// The release declares another digest.
    Mismatch,
    /// The release declares no digest for the asset: nothing can be said.
    Unavailable,
}

/// What comparing the digest `actual` with the declared digest `declared`
/// comes to.
pub open spec fn integrity_of(actual: Seq<char>, declared: Seq<char>) -> Result<
    Integrity,
    HashError,
> {
    if declared.len() == 0 {
        Ok(Integrity::Unavailable)
    } else if !is_sha256_hex(declared) {
        Err(HashError::MalformedDigest)
    } else if same_digest(actual, declared) {
        Ok(Integrity::Verified)
    } else {
        Ok(Integrity::Mismatch)
    }
}

/// Judges a downloaded file by the digest computed of it and the digest
/// that its asset declares. An asset without digest cannot be verified,
/// which is neither a match nor a mismatch.
pub fn assess_integrity(actual_hash: &str, declared_hash: &str) -> (judged: Result<
    Integrity,
    HashError,
>)
    ensures
        judged == integrity_of(actual_hash@, declared_hash@),
{
    if chars_of(declared_hash).len() == 0 {
        return Ok(Integrity::Unavailable);
    }
    match verify_file_hash(actual_hash, declared_hash) {
        Ok(true) => Ok(Integrity::Verified),
        Ok(false) => Ok(Integrity::Mismatch),
        Err(e) => Err(e),
    }
}

/// What `to_hex` writes is made of hex digits without capital letters, two
/// for each byte; of 32 bytes it has the form of a SHA-256 digest.
pub proof fn lemma_hex_lower_form(bytes: Seq<u8>)
    ensures
        hex_lower(bytes).len() == 2 * bytes.len(),
        forall|i: int|
            0 <= i < hex_lower(bytes).len() ==> is_hex_digit(#[trigger] hex_lower(bytes)[i]),
        fold_ascii(hex_lower(bytes)) == hex_lower(bytes),
        bytes.len() == 32 ==> is_sha256_hex(hex_lower(bytes)),
{
    let hex = hex_lower(bytes);
    assert forall|i: int| 0 <= i < hex.len() implies is_hex_digit(#[trigger] hex[i])
        && ascii_lower(hex[i]) == hex[i] by {}
}

/// A digest of the right form verifies against itself, and against itself
/// written with letters of the other case: of content that has not changed
/// the digest is the same every time, and the comparison says so.
pub proof fn lemma_digest_verifies_itself(hash: Seq<char>, respelled: Seq<char>)
    requires
        is_sha256_hex(hash),
        is_sha256_hex(respelled),
        fold_ascii(respelled) == fold_ascii(hash),
    ensures
        integrity_of(hash, hash) == Ok::<Integrity, HashError>(Integrity::Verified),
        integrity_of(hash, respelled) == Ok::<Integrity, HashError>(Integrity::Verified),
{
}

/// Two digests of the right form that differ in more than the case of
/// their letters do not verify: the verdict is a mismatch, not an error.
pub proof fn lemma_other_digest_is_mismatch(actual: Seq<char>, expected: Seq<char>)
    requires
        is_sha256_hex(expected),
        fold_ascii(actual) != fold_ascii(expected),
    ensures
        integrity_of(actual, expected) == Ok::<Integrity, HashError>(Integrity::Mismatch),
{
}

} // verus!
