//! Content checksums: the SHA-256 digest of an image, written as the tag
//! `sha256:` followed by the digest in lower-case hexadecimal.

use sha2::Digest;
use sha2::Sha256;
use vstd::prelude::*;

verus! {

/// The number of bytes in a SHA-256 digest.
pub const DIGEST_LENGTH: usize = 32;

/// The number of characters in a checksum: the tag and two digits for every
/// byte of the digest.
pub const CHECKSUM_LENGTH: usize = 71;

/// `sha2::Sha256`, the incremental SHA-256 hasher. Nothing inside it is visible
/// to proofs; `absorbed` stands for the input it has been given.
#[verifier::external_type_specification]
#[verifier::external_body]
pub struct ExSha256(Sha256);

/// The bytes that a `sha2::Sha256` hasher has been fed since it was created,
/// in the order in which they were fed.
pub uninterp spec fn absorbed(hasher: Sha256) -> Seq<u8>;

/// The SHA-256 digest of `data`, as `sha2` computes it.
pub uninterp spec fn sha256_digest(data: Seq<u8>) -> Seq<u8>;

/// `sha2::Digest::new` for `Sha256`: a fresh hasher, which has been fed nothing.
#[verifier::external_body]
fn hasher_new() -> (hasher: Sha256)
    ensures
        absorbed(hasher) == Seq::<u8>::empty(),
{
    Sha256::new()
}

/// `sha2::Digest::update` for `Sha256`: feeds `data` to the hasher, after
/// whatever it was fed before.
#[verifier::external_body]
fn hasher_update(hasher: &mut Sha256, data: &[u8])
    ensures
        absorbed(*final(hasher)) == absorbed(*old(hasher)) + data@,
{
    hasher.update(data)
}

/// `sha2::Digest::finalize` for `Sha256`: the digest of everything the hasher
/// was fed, copied out of the array of 32 bytes into a vector.
#[verifier::external_body]
fn hasher_finalize(hasher: Sha256) -> (digest: Vec<u8>)
    ensures
        digest@ == sha256_digest(absorbed(hasher)),
        digest@.len() == DIGEST_LENGTH,
{
    hasher.finalize().to_vec()
}

/// The SHA-256 digest of `data`, computed in one step.
fn sha256(data: &[u8]) -> (digest: Vec<u8>)
    ensures
        digest@ == sha256_digest(data@),
        digest@.len() == DIGEST_LENGTH,
{
    let mut hasher = hasher_new();
    hasher_update(&mut hasher, data);
    assert(Seq::<u8>::empty() + data@ =~= data@);
    hasher_finalize(hasher)
}

/// The tag that every checksum starts with.
pub open spec fn checksum_tag() -> Seq<char> {
    "sha256:"@
}

/// The lower-case hexadecimal digit for a value below sixteen.
pub open spec fn hex_digit(nibble: int) -> char {
    seq!['0', '1', '2', '3', '4', '5', '6', '7', '8', '9', 'a', 'b', 'c', 'd', 'e', 'f'][nibble]
}

/// Two lower-case hexadecimal digits per byte, high nibble first.
pub open spec fn hex_lower(bytes: Seq<u8>) -> Seq<char> {
    Seq::new(
        2 * bytes.len(),
        |i: int|
            if i % 2 == 0 {
                hex_digit(bytes[i / 2] as int / 16)
            } else {
                hex_digit(bytes[i / 2] as int % 16)
            },
    )
}

/// The checksum text that belongs to a digest.
pub open spec fn digest_text(digest: Seq<u8>) -> Seq<char> {
    checksum_tag() + hex_lower(digest)
}

/// The checksum of `data`: the tag, then the SHA-256 digest of `data` in
/// lower-case hexadecimal.
pub open spec fn checksum_text(data: Seq<u8>) -> Seq<char> {
    digest_text(sha256_digest(data))
}

/// Whether `expected` is the checksum of `data`.
pub open spec fn checksum_matches(data: Seq<u8>, expected: Seq<char>) -> bool {
    expected == checksum_text(data)
}

/// Whether `c` is a digit of lower-case hexadecimal.
pub open spec fn is_lower_hex(c: char) -> bool {
    ('0' <= c && c <= '9') || ('a' <= c && c <= 'f')
}

/// A checksum text is the tag followed by two lower-case hexadecimal digits
/// for every byte of the digest, and nothing else.
pub proof fn lemma_digest_text_form(digest: Seq<u8>)
    ensures
        digest_text(digest).len() == 7 + 2 * digest.len(),
        checksum_tag().is_prefix_of(digest_text(digest)),
        forall|i: int|
            7 <= i < digest_text(digest).len() ==> is_lower_hex(#[trigger] digest_text(digest)[i]),
{
    reveal_strlit("sha256:");
    let text = digest_text(digest);
    assert(text.subrange(0, 7) =~= checksum_tag());
    assert forall|i: int| 7 <= i < text.len() implies is_lower_hex(#[trigger] text[i]) by {
        let k = i - 7;
        assert(text[i] == hex_lower(digest)[k]);
        let byte = digest[k / 2] as int;
        assert(0 <= byte / 16 < 16 && 0 <= byte % 16 < 16);
        lemma_hex_digit_is_lower_hex(byte / 16);
        lemma_hex_digit_is_lower_hex(byte % 16);
    }
}

/// Every digit is a digit of lower-case hexadecimal.
pub proof fn lemma_hex_digit_is_lower_hex(nibble: int)
    requires
        0 <= nibble < 16,
    ensures
        is_lower_hex(hex_digit(nibble)),
{
    let digits = seq![
        '0',
        '1',
        '2',
        '3',
        '4',
        '5',
        '6',
        '7',
        '8',
        '9',
        'a',
        'b',
        'c',
        'd',
        'e',
        'f',
    ];
    assert(forall|i: int| 0 <= i < 16 ==> is_lower_hex(#[trigger] digits[i]));
}

/// Hexadecimal text grows by two digits with every byte.
pub proof fn lemma_hex_lower_push(bytes: Seq<u8>, byte: u8)
    ensures
        hex_lower(bytes.push(byte)) == hex_lower(bytes) + seq![
            hex_digit(byte as int / 16),
            hex_digit(byte as int % 16),
        ],
{
    let longer = hex_lower(bytes.push(byte));
    let joined = hex_lower(bytes) + seq![hex_digit(byte as int / 16), hex_digit(byte as int % 16)];
    assert(longer.len() == joined.len());
    assert forall|i: int| 0 <= i < longer.len() implies longer[i] == joined[i] by {
        if i < 2 * bytes.len() {
            assert(bytes.push(byte)[i / 2] == bytes[i / 2]);
        } else {
            assert(i / 2 == bytes.len());
            assert(bytes.push(byte)[i / 2] == byte);
        }
    }
    assert(longer =~= joined);
}

fn hex_digit_str(nibble: u8) -> (digit: &'static str)
    requires
        nibble < 16,
    ensures
        digit@ == seq![hex_digit(nibble as int)],
{
    proof {
        reveal_strlit("0");
        reveal_strlit("1");
        reveal_strlit("2");
        reveal_strlit("3");
        reveal_strlit("4");
        reveal_strlit("5");
        reveal_strlit("6");
        reveal_strlit("7");
        reveal_strlit("8");
        reveal_strlit("9");
        reveal_strlit("a");
        reveal_strlit("b");
        reveal_strlit("c");
        reveal_strlit("d");
        reveal_strlit("e");
        reveal_strlit("f");
    }
    let digit = match nibble {
        0 => "0",
        1 => "1",
        2 => "2",
        3 => "3",
        4 => "4",
        5 => "5",
        6 => "6",
        7 => "7",
        8 => "8",
        9 => "9",
        10 => "a",
        11 => "b",
        12 => "c",
        13 => "d",
        14 => "e",
        _ => "f",
    };
    assert(digit@ =~= seq![hex_digit(nibble as int)]);
    digit
}

/// Writes `bytes` in lower-case hexadecimal.
pub fn to_hex(bytes: &[u8]) -> (text: String)
    ensures
        text@ == hex_lower(bytes@),
{
    let mut text = String::new();
    let mut i: usize = 0;
    assert(hex_lower(bytes@.take(0)) =~= Seq::<char>::empty());
    while i < bytes.len()
        invariant
            i <= bytes.len(),
            text@ == hex_lower(bytes@.take(i as int)),
        decreases bytes.len() - i,
    {
        let byte = bytes[i];
        proof {
            lemma_hex_lower_push(bytes@.take(i as int), byte);
            assert(bytes@.take(i as int).push(byte) =~= bytes@.take(i + 1));
        }
        text.append(hex_digit_str(byte / 16));
        text.append(hex_digit_str(byte % 16));
        i += 1;
    }
    assert(bytes@.take(bytes.len() as int) =~= bytes@);
    text
}

/// The checksum text for a digest that has already been computed.
pub fn format_checksum(digest: &[u8]) -> (checksum: String)
    ensures
        checksum@ == digest_text(digest@),
{
    let mut checksum = String::from_str("sha256:");
    let hex = to_hex(digest);
    checksum.append(hex.as_str());
    checksum
}

/// Whether `expected_checksum` is the checksum text of the given digest.
pub fn digest_matches(digest: &[u8], expected_checksum: &str) -> (matches: bool)
    ensures
        matches == (expected_checksum@ == digest_text(digest@)),
{
    let computed = format_checksum(digest);
    let expected = expected_checksum.to_owned();
    computed == expected
}

/// A checksum computed piece by piece, for content that is read in chunks.
/// The result depends on the bytes fed and their order, not on how they were
/// cut into chunks.
pub struct ChecksumAccumulator {
    hasher: Sha256,
}

impl View for ChecksumAccumulator {
    type V = Seq<u8>;

    /// Everything fed so far.
    closed spec fn view(&self) -> Seq<u8> {
        absorbed(self.hasher)
    }
}

impl ChecksumAccumulator {
    /// An accumulator that has been fed nothing.
    pub fn new() -> (accumulator: Self)
        ensures
            accumulator@ == Seq::<u8>::empty(),
    {
        ChecksumAccumulator { hasher: hasher_new() }
    }

    /// Feeds the next chunk.
    pub fn update(&mut self, chunk: &[u8])
        ensures
            final(self)@ == old(self)@ + chunk@,
    {
        hasher_update(&mut self.hasher, chunk);
    }

    /// The checksum of everything fed.
    pub fn finalize(self) -> (checksum: String)
        ensures
            checksum@ == checksum_text(self@),
            checksum@.len() == CHECKSUM_LENGTH,
    {
        let digest = hasher_finalize(self.hasher);
        proof {
            lemma_digest_text_form(digest@);
        }
        format_checksum(digest.as_slice())
    }
}

/// The checksum of a file's contents.
pub fn calculate_file_checksum(contents: &[u8]) -> (checksum: String)
    ensures
        checksum@ == checksum_text(contents@),
        checksum@.len() == CHECKSUM_LENGTH,
{
    let digest = sha256(contents);
    proof {
        lemma_digest_text_form(digest@);
    }
    format_checksum(digest.as_slice())
}

/// Recomputes the checksum of `data` and compares it with `expected_checksum`.
/// Text that does not start with the tag, or that names another digest, does
/// not match.
pub fn _verify_checksum(data: &[u8], expected_checksum: &str) -> (verified: bool)
    ensures
        verified == checksum_matches(data@, expected_checksum@),
{
    let digest = sha256(data);
    digest_matches(digest.as_slice(), expected_checksum)
}

/// A checksum verifies against the data it was computed from, and no other
/// text verifies against that data.
pub proof fn lemma_verify_accepts_exactly_the_checksum(data: Seq<u8>, expected: Seq<char>)
    ensures
        checksum_matches(data, checksum_text(data)),
        expected != checksum_text(data) ==> !checksum_matches(data, expected),
{
}

/// Different values below sixteen have different digits.
pub proof fn lemma_hex_digit_injective(a: int, b: int)
    requires
        0 <= a < 16,
        0 <= b < 16,
        hex_digit(a) == hex_digit(b),
    ensures
        a == b,
{
    let digits = seq![
        '0',
        '1',
        '2',
        '3',
        '4',
        '5',
        '6',
        '7',
        '8',
        '9',
        'a',
        'b',
        'c',
        'd',
        'e',
        'f',
    ];
    assert(forall|i: int, j: int| 0 <= i < j < 16 ==> digits[i] != digits[j]);
}

/// Different byte sequences have different hexadecimal texts.
pub proof fn lemma_hex_lower_injective(a: Seq<u8>, b: Seq<u8>)
    requires
        hex_lower(a) == hex_lower(b),
    ensures
        a == b,
{
    assert(hex_lower(a).len() == 2 * a.len());
    assert(hex_lower(b).len() == 2 * b.len());
    assert(a.len() == b.len());
    assert forall|i: int| 0 <= i < a.len() implies a[i] == b[i] by {
        let high = 2 * i;
        let low = 2 * i + 1;
        assert(high / 2 == i && high % 2 == 0);
        assert(low / 2 == i && low % 2 == 1);
        assert(hex_lower(a)[high] == hex_digit(a[i] as int / 16));
        assert(hex_lower(b)[high] == hex_digit(b[i] as int / 16));
        assert(hex_lower(a)[low] == hex_digit(a[i] as int % 16));
        assert(hex_lower(b)[low] == hex_digit(b[i] as int % 16));
        lemma_hex_digit_injective(a[i] as int / 16, b[i] as int / 16);
        lemma_hex_digit_injective(a[i] as int % 16, b[i] as int % 16);
    }
    assert(a =~= b);
}

/// The checksum text of a digest other than the digest of `data` does not
/// verify against `data`.
pub proof fn lemma_other_digest_never_matches(data: Seq<u8>, digest: Seq<u8>)
    requires
        digest != sha256_digest(data),
    ensures
        !checksum_matches(data, digest_text(digest)),
{
    if digest_text(digest) == checksum_text(data) {
        let tag = checksum_tag();
        let ours = digest_text(digest);
        let theirs = checksum_text(data);
        assert(ours.subrange(tag.len() as int, ours.len() as int) =~= hex_lower(digest));
        assert(theirs.subrange(tag.len() as int, theirs.len() as int) =~= hex_lower(
            sha256_digest(data),
        ));
        lemma_hex_lower_injective(digest, sha256_digest(data));
    }
}

/// Text that does not begin with the tag matches no data.
pub proof fn lemma_untagged_text_never_matches(data: Seq<u8>, expected: Seq<char>)
    requires
        !checksum_tag().is_prefix_of(expected),
    ensures
        !checksum_matches(data, expected),
{
    if expected == checksum_text(data) {
        assert(checksum_text(data).subrange(0, checksum_tag().len() as int) =~= checksum_tag());
        assert(checksum_tag().is_prefix_of(expected));
    }
}

} // verus!
