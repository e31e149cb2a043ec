use feasycom_protocol::app_state::AppState;
use feasycom_protocol::bytes::bytes_eq;
use feasycom_protocol::bytes::find_byte;
use feasycom_protocol::bytes::split_at_byte;
use feasycom_protocol::bytes::trim;
use feasycom_protocol::error::Error;
use feasycom_protocol::error::InvalidVariantError;
use feasycom_protocol::error::ParseIntError;
use feasycom_protocol::error::SerialFault;
use feasycom_protocol::error::Utf8Error;
use feasycom_protocol::numbers::parse_u64;
use feasycom_protocol::numbers::parse_usize;
use feasycom_protocol::numbers::u64_to_dec;
use feasycom_protocol::text::lossy_field;
use feasycom_protocol::text::utf8_field;

#[test]
fn parse_u64_values() {
    assert_eq!(parse_u64(b"0"), Ok(0));
    assert_eq!(parse_u64(b"1500"), Ok(1500));
    assert_eq!(parse_u64(b"+42"), Ok(42));
    assert_eq!(parse_u64(b"18446744073709551615"), Ok(u64::MAX));
}

#[test]
fn parse_u64_errors() {
    assert_eq!(parse_u64(b""), Err(ParseIntError::Empty));
    assert_eq!(parse_u64(b"+"), Err(ParseIntError::InvalidDigit));
    assert_eq!(parse_u64(b"12a4"), Err(ParseIntError::InvalidDigit));
    assert_eq!(parse_u64(b"-3"), Err(ParseIntError::InvalidDigit));
    assert_eq!(parse_u64(b"18446744073709551616"), Err(ParseIntError::PosOverflow));
    assert_eq!(parse_u64(b"99999999999999999999x"), Err(ParseIntError::InvalidDigit));
}

#[test]
fn parse_usize_values() {
    assert_eq!(parse_usize(b"5"), Ok(5));
    assert_eq!(parse_usize(b""), Err(ParseIntError::Empty));
    assert_eq!(parse_usize(b"9x"), Err(ParseIntError::InvalidDigit));
}

#[test]
fn decimal_rendering() {
    assert_eq!(u64_to_dec(0), "0");
    assert_eq!(u64_to_dec(7), "7");
    assert_eq!(u64_to_dec(115200), "115200");
    assert_eq!(u64_to_dec(u64::MAX), "18446744073709551615");
}

#[test]
fn utf8_field_decodes() {
    assert_eq!(utf8_field(b"plain"), Ok("plain".to_string()));
    assert_eq!(utf8_field(b"h\xc3\xa9"), Ok("h\u{e9}".to_string()));
    assert_eq!(utf8_field(b""), Ok(String::new()));
}

#[test]
fn utf8_field_reports_offset() {
    assert_eq!(utf8_field(b"ab\xffcd"), Err(Utf8Error { valid_up_to: 2 }));
    assert_eq!(utf8_field(b"\x80"), Err(Utf8Error { valid_up_to: 0 }));
    // a truncated multibyte sequence is invalid where it starts
    assert_eq!(utf8_field(b"a\xc3"), Err(Utf8Error { valid_up_to: 1 }));
    // an overlong encoding is rejected
    assert_eq!(utf8_field(b"\xc0\xaf"), Err(Utf8Error { valid_up_to: 0 }));
    // a surrogate codepoint is rejected
    assert_eq!(utf8_field(b"\xed\xa0\x80"), Err(Utf8Error { valid_up_to: 0 }));
}

#[test]
fn lossy_field_substitutes() {
    assert_eq!(lossy_field(b"ok"), "ok".to_string());
    assert_eq!(lossy_field(b"a\xffb"), "a\u{fffd}b".to_string());
}

#[test]
fn byte_helpers() {
    assert!(bytes_eq(b"abc", b"abc"));
    assert!(!bytes_eq(b"abc", b"abd"));
    assert!(!bytes_eq(b"abc", b"ab"));
    assert_eq!(find_byte(b"a=b", b'='), 1);
    assert_eq!(find_byte(b"ab", b'='), 2);
    let (head, tail) = split_at_byte(b"1,2,3", b',');
    assert_eq!(head, b"1");
    assert_eq!(tail, b"2,3");
    let (head, tail) = split_at_byte(b"123", b',');
    assert_eq!(head, b"123");
    assert_eq!(tail, b"");
    assert_eq!(trim(b"  a b\t\r\n"), b"a b");
    assert_eq!(trim(b"\r\n"), b"");
}

#[test]
fn error_messages() {
    assert_eq!(Error::Serial(SerialFault::Framing).message(), "serial framing error");
    assert_eq!(Error::Serial(SerialFault::BufferTooLong).message(), "serial buffer overflow");
    assert_eq!(
        Error::Utf8Error(Utf8Error { valid_up_to: 3 }).message(),
        "invalid utf-8 in parameters"
    );
    assert_eq!(Error::ParseIntError(ParseIntError::Empty).message(), "invalid decimal field");
    assert_eq!(
        Error::InvalidVariantError(InvalidVariantError("PLAYSTAT".to_string(), b"9".to_vec()))
            .message(),
        "invalid variant for PLAYSTAT"
    );
}

#[test]
fn error_wrapping_keeps_identity() {
    assert_eq!(
        Error::from(Utf8Error { valid_up_to: 1 }),
        Error::Utf8Error(Utf8Error { valid_up_to: 1 })
    );
    assert_eq!(
        Error::from(ParseIntError::PosOverflow),
        Error::ParseIntError(ParseIntError::PosOverflow)
    );
    assert_eq!(Error::from(SerialFault::Noise), Error::Serial(SerialFault::Noise));
    let iv = InvalidVariantError("SPPSTAT".to_string(), b"8".to_vec());
    assert_eq!(Error::from(iv.clone()), Error::InvalidVariantError(iv));
}

#[test]
fn app_state_starts_empty() {
    let s = AppState::default();
    assert_eq!(s.song_title, None);
    assert_eq!(s.song_artist, None);
    assert_eq!(s.song_album, None);
    assert_eq!(s.playback_elapsed_time, None);
    assert_eq!(s.playback_total_time, None);
}
