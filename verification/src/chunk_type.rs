//! The PNG chunk-type code: a 4-byte value whose four ASCII-case bits
//! classify a chunk as critical/ancillary, public/private, reserved-bit
//! valid, and safe or unsafe to copy.

use vstd::prelude::*;
use vstd::string::StrSliceExecFns;
use vstd::utf8::decode_utf8;
use vstd::utf8::encode_utf8;
use vstd::utf8::is_ascii_chars;
use vstd::utf8::valid_utf8;

verus! {

/// True when `c` is a Latin alphabetic ASCII character, `a`-`z` or `A`-`Z`.
pub open spec fn spec_is_latin_alphabetic(c: char) -> bool {
    ('a' <= c && c <= 'z') || ('A' <= c && c <= 'Z')
}

/// True when every character of `s` is a Latin alphabetic ASCII character.
pub open spec fn all_latin_alphabetic(s: Seq<char>) -> bool {
    forall|i: int| 0 <= i < s.len() ==> spec_is_latin_alphabetic(#[trigger] s[i])
}

/// True when `b` is the ASCII code of an uppercase letter, `A`-`Z`.
pub open spec fn is_uppercase_letter_byte(b: u8) -> bool {
    65 <= b && b <= 90
}

/// True when `b` is the ASCII code of a lowercase letter, `a`-`z`.
pub open spec fn is_lowercase_letter_byte(b: u8) -> bool {
    97 <= b && b <= 122
}

/// The bytes that a sequence of ASCII characters occupies in text, one byte
/// per character.
pub open spec fn chars_as_bytes(s: Seq<char>) -> Seq<u8> {
    Seq::new(s.len(), |i: int| s[i] as u8)
}

/// Whether `c` is a Latin alphabetic ASCII character, `a`-`z` or `A`-`Z`.
pub fn is_latin_alphabetic(c: char) -> (r: bool)
    ensures
        r == spec_is_latin_alphabetic(c),
{
    (c >= 'a' && c <= 'z') || (c >= 'A' && c <= 'Z')
}

/// Whether every character of `s` is a Latin alphabetic ASCII character.
pub fn is_only_latin_alphabetic(s: &str) -> (r: bool)
    ensures
        r == all_latin_alphabetic(s@),
{
    let n = s.unicode_len();
    let mut i: usize = 0;
    while i < n
        invariant
            n == s@.len(),
            0 <= i <= n,
            forall|j: int| 0 <= j < i ==> spec_is_latin_alphabetic(#[trigger] s@[j]),
        decreases n - i,
    {
        if !is_latin_alphabetic(s.get_char(i)) {
            return false;
        }
        i = i + 1;
    }
    true
}

/// A string of Latin alphabetic ASCII characters holds ASCII characters
/// only.
pub proof fn lemma_latin_alphabetic_is_ascii(s: Seq<char>)
    requires
        all_latin_alphabetic(s),
    ensures
        is_ascii_chars(s),
{
    assert forall|i: int| 0 <= i < s.len() implies '\0' <= #[trigger] s[i] <= '\u{7f}' by {
        assert(spec_is_latin_alphabetic(s[i]));
    }
}

/// Relies on String::from_utf8: on bytes that are a valid UTF-8 encoding it
/// succeeds, and the returned string's UTF-8 encoding is exactly the input
/// bytes.
#[verifier::external_body]
fn utf8_bytes_to_string(v: &Vec<u8>) -> (r: String)
    requires
        valid_utf8(v@),
    ensures
        encode_utf8(r@) == v@,
{
    String::from_utf8(v.clone()).unwrap()
}

/// Why a string was rejected as a chunk-type code.
#[derive(Debug, Clone, Copy, PartialEq, Eq)]
pub enum ChunkTypeError {
    /// The string is not exactly 4 bytes long.
    WrongLength,
    /// The string holds a character outside `A`-`Z` and `a`-`z`.
    NonLetterCharacter,
    /// The string holds a byte outside the ASCII range. Unreachable once the
    /// letter check has passed, but kept as a distinct failure mode.
    NonAsciiByte,
}

/// A PNG chunk-type code: exactly 4 bytes, which name the chunk's role and
/// carry its four property bits in the case of each byte.
#[derive(Debug, PartialEq, Eq)]
pub struct ChunkType(pub [u8; 4]);

impl ChunkType {
    /// True when this code equals the fixed 4-byte pattern for the text
    /// `RuSt`. A sentinel check against that one literal value, not a
    /// general PNG rule.
    pub open spec fn spec_is_valid(self) -> bool {
        self.0[0] == 82 && self.0[1] == 117 && self.0[2] == 83 && self.0[3] == 116
    }

    /// True when byte 0 equals 82, the ASCII code of `R`.
    pub open spec fn spec_is_critical(self) -> bool {
        self.0[0] == 82
    }

    /// True when byte 1 is an uppercase ASCII letter.
    pub open spec fn spec_is_public(self) -> bool {
        is_uppercase_letter_byte(self.0[1])
    }

    /// True when byte 2 is an uppercase ASCII letter.
    pub open spec fn spec_is_reserved_bit_valid(self) -> bool {
        is_uppercase_letter_byte(self.0[2])
    }

    /// True when byte 3 is a lowercase ASCII letter.
    pub open spec fn spec_is_safe_to_copy(self) -> bool {
        is_lowercase_letter_byte(self.0[3])
    }

    /// Parses a chunk-type code from text. Succeeds exactly on strings of
    /// 4 bytes that hold only Latin alphabetic ASCII characters; the three
    /// checks run in order and each failure is a distinct error.
    pub fn from_str(s: &str) -> (r: Result<ChunkType, ChunkTypeError>)
        ensures
            r == Err::<ChunkType, ChunkTypeError>(ChunkTypeError::WrongLength) <==> encode_utf8(
                s@,
            ).len() != 4,
            r == Err::<ChunkType, ChunkTypeError>(ChunkTypeError::NonLetterCharacter) <==> (
            encode_utf8(s@).len() == 4 && !all_latin_alphabetic(s@)),
            r != Err::<ChunkType, ChunkTypeError>(ChunkTypeError::NonAsciiByte),
            r is Ok <==> encode_utf8(s@).len() == 4 && all_latin_alphabetic(s@),
            r is Ok ==> s@.len() == 4 && r->Ok_0.0@ == chars_as_bytes(s@),
    {
        let bytes: Vec<u8> = s.as_bytes_vec();
        if bytes.len() != 4 {
            Err(ChunkTypeError::WrongLength)
        } else if !is_only_latin_alphabetic(s) {
            Err(ChunkTypeError::NonLetterCharacter)
        } else {
            proof {
                lemma_latin_alphabetic_is_ascii(s@);
                vstd::utf8::is_ascii_chars_encode_utf8(s@);
            }
            let mut i: usize = 0;
            while i < bytes.len()
                invariant
                    bytes@ == encode_utf8(s@),
                    s@.len() == 4,
                    bytes@.len() == 4,
                    all_latin_alphabetic(s@),
                    forall|j: int|
                        0 <= j < s@.len() ==> #[trigger] encode_utf8(s@)[j] == s@[j] as u8,
                    0 <= i <= 4,
                decreases bytes@.len() - i,
            {
                if bytes[i] >= 128 {
                    return Err(ChunkTypeError::NonAsciiByte);
                }
                i = i + 1;
            }
            let code: [u8; 4] = [bytes[0], bytes[1], bytes[2], bytes[3]];
            proof {
                assert(code@ =~= chars_as_bytes(s@));
            }
            Ok(ChunkType(code))
        }
    }

    /// Wraps 4 raw bytes verbatim. Never fails: this is the unchecked path
    /// for bytes already known to come from a well-formed stream.
    pub fn try_from(value: [u8; 4]) -> (r: Result<ChunkType, ChunkTypeError>)
        ensures
            r == Ok::<ChunkType, ChunkTypeError>(ChunkType(value)),
    {
        Ok(ChunkType(value))
    }

    /// Renders the 4 bytes as text. The bytes must be valid UTF-8: a value
    /// whose bytes are not is a precondition violation, possible only
    /// through the unchecked raw-byte construction path.
    pub fn to_string(&self) -> (r: String)
        requires
            valid_utf8(self.0@),
        ensures
            r@ == decode_utf8(self.0@),
    {
        let v: Vec<u8> = vec![self.0[0], self.0[1], self.0[2], self.0[3]];
        proof {
            assert(v@ =~= self.0@);
        }
        let r = utf8_bytes_to_string(&v);
        proof {
            vstd::utf8::encode_utf8_decode_utf8(r@);
        }
        r
    }

    /// The raw 4-byte value, unchanged.
    pub fn bytes(&self) -> (r: [u8; 4])
        ensures
            r == self.0,
    {
        self.0
    }

    /// Whether this code equals the fixed sentinel pattern, the bytes of
    /// the text `RuSt`.
    pub fn is_valid(&self) -> (r: bool)
        ensures
            r == self.spec_is_valid(),
    {
        self.0[0] == 82 && self.0[1] == 117 && self.0[2] == 83 && self.0[3] == 116
    }

    /// Whether the chunk is critical: byte 0 equals 82, the ASCII code
    /// of `R`.
    pub fn is_critical(&self) -> (r: bool)
        ensures
            r == self.spec_is_critical(),
    {
        self.0[0] == 82
    }

    /// Whether the chunk type is public: byte 1 is an uppercase ASCII
    /// letter.
    pub fn is_public(&self) -> (r: bool)
        ensures
            r == self.spec_is_public(),
    {
        65 <= self.0[1] && self.0[1] <= 90
    }

    /// Whether the reserved bit is valid: byte 2 is an uppercase ASCII
    /// letter.
    pub fn is_reserved_bit_valid(&self) -> (r: bool)
        ensures
            r == self.spec_is_reserved_bit_valid(),
    {
        65 <= self.0[2] && self.0[2] <= 90
    }

    /// Whether the chunk is safe to copy: byte 3 is a lowercase ASCII
    /// letter.
    pub fn is_safe_to_copy(&self) -> (r: bool)
        ensures
            r == self.spec_is_safe_to_copy(),
    {
        97 <= self.0[3] && self.0[3] <= 122
    }
}

/// Round trip: a 4-character string of Latin alphabetic ASCII characters
/// occupies exactly 4 bytes, so parsing it succeeds; the parsed value's
/// bytes are valid UTF-8, so it may be rendered; and rendering reproduces
/// the original string exactly.
pub proof fn lemma_parse_render_round_trip(s: Seq<char>)
    requires
        s.len() == 4,
        all_latin_alphabetic(s),
    ensures
        encode_utf8(s).len() == 4,
        valid_utf8(chars_as_bytes(s)),
        decode_utf8(chars_as_bytes(s)) == s,
{
    lemma_latin_alphabetic_is_ascii(s);
    vstd::utf8::is_ascii_chars_encode_utf8(s);
    assert(encode_utf8(s) =~= chars_as_bytes(s));
    vstd::utf8::encode_utf8_valid_utf8(s);
    vstd::utf8::encode_utf8_decode_utf8(s);
}

/// Two chunk-type codes that hold the same 4 bytes are equal, however each
/// was constructed.
pub proof fn lemma_same_bytes_equal(a: ChunkType, b: ChunkType)
    requires
        a.0@ == b.0@,
    ensures
        a == b,
{
    broadcast use vstd::array::group_array_axioms;

    assert(a.0 =~= b.0);
}

/// Each case-derived property reads one byte alone: two codes that agree on
/// byte 1 agree on `is_public`, two that agree on byte 2 agree on
/// `is_reserved_bit_valid`, and two that agree on byte 3 agree on
/// `is_safe_to_copy`, whatever their other bytes hold.
pub proof fn lemma_flags_read_single_byte(a: ChunkType, b: ChunkType)
    ensures
        a.0[1] == b.0[1] ==> a.spec_is_public() == b.spec_is_public(),
        a.0[2] == b.0[2] ==> a.spec_is_reserved_bit_valid() == b.spec_is_reserved_bit_valid(),
        a.0[3] == b.0[3] ==> a.spec_is_safe_to_copy() == b.spec_is_safe_to_copy(),
{
}

} // verus!
