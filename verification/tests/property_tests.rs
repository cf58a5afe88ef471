use png_chunk_type::chunk_type::ChunkType;
use png_chunk_type::chunk_type::ChunkTypeError;
use png_chunk_type::chunk_type::is_latin_alphabetic;
use png_chunk_type::chunk_type::is_only_latin_alphabetic;

#[test]
fn round_trip_reproduces_text() {
    for s in ["abcd", "WXYZ", "IHDR", "tEXt", "RuSt"] {
        let chunk = ChunkType::from_str(s).unwrap();
        assert_eq!(chunk.to_string(), s);
    }
}

#[test]
fn wrong_length_is_rejected() {
    assert_eq!(ChunkType::from_str(""), Err(ChunkTypeError::WrongLength));
    assert_eq!(ChunkType::from_str("abc"), Err(ChunkTypeError::WrongLength));
    assert_eq!(ChunkType::from_str("abcde"), Err(ChunkTypeError::WrongLength));
    // A two-byte character: one character, two bytes, so the length check
    // sees 2, not 1.
    assert_eq!(ChunkType::from_str("\u{e9}"), Err(ChunkTypeError::WrongLength));
}

#[test]
fn non_letter_is_rejected() {
    assert_eq!(ChunkType::from_str("Ru1t"), Err(ChunkTypeError::NonLetterCharacter));
    assert_eq!(ChunkType::from_str("ab c"), Err(ChunkTypeError::NonLetterCharacter));
    assert_eq!(ChunkType::from_str("ab-d"), Err(ChunkTypeError::NonLetterCharacter));
    // Four bytes but three characters: the length check passes on the byte
    // count and the letter check then rejects the two-byte character.
    assert_eq!(ChunkType::from_str("ab\u{e9}"), Err(ChunkTypeError::NonLetterCharacter));
}

#[test]
fn raw_and_text_paths_agree() {
    let raw = ChunkType::try_from([82, 117, 83, 116]).unwrap();
    let text = ChunkType::from_str("RuSt").unwrap();
    assert_eq!(raw, text);
    assert_eq!(raw.bytes(), text.bytes());
}

#[test]
fn raw_path_accepts_any_bytes() {
    let chunk = ChunkType::try_from([0, 255, 7, 128]).unwrap();
    assert_eq!(chunk.bytes(), [0, 255, 7, 128]);
    assert!(!chunk.is_valid());
}

#[test]
fn flags_read_their_own_byte_alone() {
    // Same second byte, everything else different: is_public agrees.
    let a = ChunkType::from_str("aXbc").unwrap();
    let b = ChunkType::from_str("DXef").unwrap();
    assert_eq!(a.is_public(), b.is_public());
    // Same third byte: is_reserved_bit_valid agrees.
    let a = ChunkType::from_str("abQc").unwrap();
    let b = ChunkType::from_str("DeQf").unwrap();
    assert_eq!(a.is_reserved_bit_valid(), b.is_reserved_bit_valid());
    // Same fourth byte: is_safe_to_copy agrees.
    let a = ChunkType::from_str("abcz").unwrap();
    let b = ChunkType::from_str("DEFz").unwrap();
    assert_eq!(a.is_safe_to_copy(), b.is_safe_to_copy());
}

#[test]
fn scenario_rust_flags() {
    let chunk = ChunkType::from_str("RuSt").unwrap();
    assert!(chunk.is_critical());
    assert!(!chunk.is_public());
    assert!(chunk.is_reserved_bit_valid());
    assert!(chunk.is_safe_to_copy());
    assert!(chunk.is_valid());
}

#[test]
fn scenario_lowercase_first_byte() {
    let chunk = ChunkType::from_str("ruSt").unwrap();
    assert!(!chunk.is_critical());
}

#[test]
fn scenario_uppercase_second_byte() {
    let chunk = ChunkType::from_str("RUSt").unwrap();
    assert!(chunk.is_public());
}

#[test]
fn scenario_lowercase_third_byte() {
    let chunk = ChunkType::from_str("Rust").unwrap();
    assert!(!chunk.is_reserved_bit_valid());
    assert!(!chunk.is_valid());
}

#[test]
fn latin_alphabetic_characters() {
    assert!(is_latin_alphabetic('a'));
    assert!(is_latin_alphabetic('z'));
    assert!(is_latin_alphabetic('A'));
    assert!(is_latin_alphabetic('Z'));
    assert!(!is_latin_alphabetic('0'));
    assert!(!is_latin_alphabetic('`'));
    assert!(!is_latin_alphabetic('{'));
    assert!(!is_latin_alphabetic('@'));
    assert!(!is_latin_alphabetic('['));
    assert!(!is_latin_alphabetic('\u{e9}'));
}

#[test]
fn only_latin_alphabetic_strings() {
    assert!(is_only_latin_alphabetic(""));
    assert!(is_only_latin_alphabetic("RuSt"));
    assert!(is_only_latin_alphabetic("abcdefzABCDEFZ"));
    assert!(!is_only_latin_alphabetic("Ru1t"));
    assert!(!is_only_latin_alphabetic("ab\u{e9}"));
}

#[test]
fn rendering_non_letter_ascii_bytes() {
    // The raw path wraps any bytes; rendering only needs them to be valid
    // text, not letters.
    let chunk = ChunkType::try_from([33, 64, 97, 126]).unwrap();
    assert_eq!(chunk.to_string(), "!@a~");
}
