//! Content handles: a fingerprint of the content and its size.

use vstd::prelude::*;

verus! {

/// Number of bytes in a fingerprint.
pub const FINGERPRINT_SIZE: usize = 32;

/// Number of hexadecimal digits that write a fingerprint.
pub const FINGERPRINT_HEX_SIZE: usize = 64;

/// The hash of some content.
#[derive(Clone, Copy, Debug, PartialEq, Eq, Hash)]
pub struct Fingerprint(pub [u8; 32]);

/// Identifies content by its fingerprint and its length in bytes.
#[derive(Clone, Copy, Debug, PartialEq, Eq, Hash)]
pub struct Digest(pub Fingerprint, pub usize);

/// Why a text is not the hexadecimal form of a fingerprint.
#[derive(Clone, Copy, Debug, PartialEq, Eq, Structural)]
pub enum FingerprintError {
    /// The text has `found` characters, not 64.
    Length { found: usize },
    /// The character at `position` is the first that is no hexadecimal digit.
    Digit { position: usize },
}

/// Why an object does not resolve to a digest.
#[derive(Clone, Copy, Debug, PartialEq, Eq, Structural)]
pub enum ResolveError {
    /// The object is not of the type that digests have.
    WrongType,
    /// The object has no fingerprint that is text.
    NoFingerprint,
    /// The object has no length that is an unsigned integer.
    NoLength,
    /// The fingerprint is not 64 hexadecimal digits.
    Fingerprint(FingerprintError),
    /// The length does not fit this machine's `usize`.
    Oversize { length: u64 },
}

/// Value of a hexadecimal digit, in either case.
pub open spec fn hex_value(c: char) -> Option<u8> {
    if '0' <= c <= '9' {
        Some((c as u8 - '0' as u8) as u8)
    } else if 'a' <= c <= 'f' {
        Some((c as u8 - 'a' as u8 + 10) as u8)
    } else if 'A' <= c <= 'F' {
        Some((c as u8 - 'A' as u8 + 10) as u8)
    } else {
        None
    }
}

/// Whether every character of `text` is a hexadecimal digit.
pub open spec fn is_hex_text(text: Seq<char>) -> bool {
    forall|i: int| 0 <= i < text.len() ==> (#[trigger] hex_value(text[i])) is Some
}

/// Whether `position` is the place of the first character of `text` that is no
/// hexadecimal digit.
pub open spec fn is_first_bad_digit(text: Seq<char>, position: int) -> bool {
    &&& 0 <= position < text.len()
    &&& hex_value(text[position]) is None
    &&& forall|j: int| 0 <= j < position ==> (#[trigger] hex_value(text[j])) is Some
}

/// The byte written by the digits at `2 * index` and `2 * index + 1`, the
/// high half first.
pub open spec fn hex_byte(text: Seq<char>, index: int) -> int {
    16 * hex_value(text[2 * index]).unwrap() + hex_value(text[2 * index + 1]).unwrap()
}

/// Whether `bytes` is what the 64 hexadecimal digits of `text` write.
pub open spec fn is_hex_of(text: Seq<char>, bytes: Seq<u8>) -> bool {
    &&& text.len() == FINGERPRINT_HEX_SIZE
    &&& bytes.len() == FINGERPRINT_SIZE
    &&& is_hex_text(text)
    &&& forall|i: int| 0 <= i < FINGERPRINT_SIZE ==> #[trigger] bytes[i] == hex_byte(text, i)
}

/// Value of the hexadecimal digit `c`, `None` for any other character.
pub fn hex_digit(c: char) -> (value: Option<u8>)
    ensures
        value == hex_value(c),
        value matches Some(v) ==> v < 16,
{
    if '0' <= c && c <= '9' {
        Some(c as u8 - '0' as u8)
    } else if 'a' <= c && c <= 'f' {
        Some(c as u8 - 'a' as u8 + 10)
    } else if 'A' <= c && c <= 'F' {
        Some(c as u8 - 'A' as u8 + 10)
    } else {
        None
    }
}

impl Fingerprint {
    /// The bytes of the fingerprint.
    pub open spec fn bytes(self) -> Seq<u8> {
        self.0@
    }

    /// Reads a fingerprint from its 64 hexadecimal digits.
    ///
    /// Fails with `Length` when the text does not have 64 characters, and
    /// else with `Digit` at the first character that is no digit.
    pub fn from_hex_string(hex: &str) -> (parsed: Result<Fingerprint, FingerprintError>)
        ensures
            parsed is Ok <==> hex@.len() == FINGERPRINT_HEX_SIZE && is_hex_text(hex@),
            match parsed {
                Ok(fingerprint) => is_hex_of(hex@, fingerprint.bytes()),
                Err(FingerprintError::Length { found }) => hex@.len() != FINGERPRINT_HEX_SIZE
                    && found == hex@.len(),
                Err(FingerprintError::Digit { position }) => hex@.len() == FINGERPRINT_HEX_SIZE
                    && is_first_bad_digit(hex@, position as int),
            },
    {
        let found = hex.unicode_len();
        if found != FINGERPRINT_HEX_SIZE {
            return Err(FingerprintError::Length { found });
        }
        let mut bytes = [0u8;32];
        let mut index: usize = 0;
        while index < FINGERPRINT_SIZE
            invariant
                index <= FINGERPRINT_SIZE,
                hex@.len() == FINGERPRINT_HEX_SIZE,
                forall|j: int| 0 <= j < 2 * index ==> (#[trigger] hex_value(hex@[j])) is Some,
                forall|i: int| 0 <= i < index ==> #[trigger] bytes@[i] == hex_byte(hex@, i),
            decreases FINGERPRINT_SIZE - index,
        {
            let high = match hex_digit(hex.get_char(2 * index)) {
                Some(value) => value,
                None => {
                    return Err(FingerprintError::Digit { position: 2 * index });
                },
            };
            let low = match hex_digit(hex.get_char(2 * index + 1)) {
                Some(value) => value,
                None => {
                    return Err(FingerprintError::Digit { position: 2 * index + 1 });
                },
            };
            bytes[index] = high * 16 + low;
            index += 1;
        }
        Ok(Fingerprint(bytes))
    }
}

impl Digest {
    /// The fingerprint of the content.
    pub open spec fn fingerprint(self) -> Fingerprint {
        self.0
    }

    /// The length of the content in bytes.
    pub open spec fn size_bytes(self) -> usize {
        self.1
    }

    /// Puts a fingerprint and a length together.
    pub fn new(fingerprint: Fingerprint, size_bytes: usize) -> (digest: Digest)
        ensures
            digest.fingerprint() == fingerprint,
            digest.size_bytes() == size_bytes,
    {
        Digest(fingerprint, size_bytes)
    }
}

/// Whether `resolved` is what the fingerprint `fingerprint`, in hexadecimal,
/// and the length `length` resolve to: their digest, or the reason why they
/// make none. A fingerprint that does not read comes before a length that
/// does not fit.
pub open spec fn is_digest_of_parts(
    fingerprint: Seq<char>,
    length: u64,
    resolved: Result<Digest, ResolveError>,
) -> bool {
    match resolved {
        Ok(digest) => is_hex_of(fingerprint, digest.fingerprint().bytes()) && length <= usize::MAX
            && digest.size_bytes() == length,
        Err(ResolveError::Fingerprint(FingerprintError::Length { found })) => fingerprint.len()
            != FINGERPRINT_HEX_SIZE && found == fingerprint.len(),
        Err(ResolveError::Fingerprint(FingerprintError::Digit { position })) => fingerprint.len()
            == FINGERPRINT_HEX_SIZE && is_first_bad_digit(fingerprint, position as int),
        Err(ResolveError::Oversize { length: refused }) => fingerprint.len()
            == FINGERPRINT_HEX_SIZE && is_hex_text(fingerprint) && length > usize::MAX && refused
            == length,
        Err(_) => false,
    }
}

/// The digest that a fingerprint in hexadecimal and a length stand for.
///
/// A fingerprint that does not read comes before a length that does not fit.
pub fn digest_from_parts(fingerprint: &str, length: u64) -> (resolved: Result<Digest, ResolveError>)
    ensures
        resolved is Ok <==> fingerprint@.len() == FINGERPRINT_HEX_SIZE && is_hex_text(fingerprint@)
            && length <= usize::MAX,
        is_digest_of_parts(fingerprint@, length, resolved),
{
    let parsed = match Fingerprint::from_hex_string(fingerprint) {
        Ok(parsed) => parsed,
        Err(error) => {
            return Err(ResolveError::Fingerprint(error));
        },
    };
    if length > usize::MAX as u64 {
        return Err(ResolveError::Oversize { length });
    }
    Ok(Digest::new(parsed, length as usize))
}

/// A text has at most one reading: two fingerprints written by the same
/// digits are the same bytes.
pub proof fn hex_reading_is_unique(text: Seq<char>, first: Seq<u8>, second: Seq<u8>)
    requires
        is_hex_of(text, first),
        is_hex_of(text, second),
    ensures
        first == second,
{
    assert(first =~= second);
}

/// A text with a character that is no digit is not the form of any
/// fingerprint, and the first such character is at one place only.
pub proof fn bad_digit_excludes_reading(text: Seq<char>, position: int, other: int)
    requires
        is_first_bad_digit(text, position),
    ensures
        !is_hex_text(text),
        is_first_bad_digit(text, other) ==> other == position,
{
}

} // verus!
