use spaceapi_dezentrale_server::text::{parse_u64, push_hex16, ParseError};

fn hex16(n: u64) -> String {
    let mut text = String::new();
    push_hex16(&mut text, n);
    text
}

#[test]
fn plain_digits_parse() {
    assert_eq!(parse_u64("0"), Ok(0));
    assert_eq!(parse_u64("7"), Ok(7));
    assert_eq!(parse_u64("300"), Ok(300));
    assert_eq!(parse_u64("100"), Ok(100));
    assert_eq!(parse_u64("0000300"), Ok(300));
}

#[test]
fn a_leading_plus_is_taken() {
    assert_eq!(parse_u64("+300"), Ok(300));
    assert_eq!(parse_u64("+0"), Ok(0));
}

#[test]
fn the_largest_number_parses_and_the_next_does_not() {
    assert_eq!(parse_u64("18446744073709551615"), Ok(u64::MAX));
    assert_eq!(parse_u64("+18446744073709551615"), Ok(u64::MAX));
    assert_eq!(parse_u64("00018446744073709551615"), Ok(u64::MAX));
    assert_eq!(parse_u64("18446744073709551616"), Err(ParseError::PosOverflow));
    assert_eq!(parse_u64("99999999999999999999"), Err(ParseError::PosOverflow));
    assert_eq!(parse_u64("184467440737095516150"), Err(ParseError::PosOverflow));
}

#[test]
fn the_empty_text_is_empty() {
    assert_eq!(parse_u64(""), Err(ParseError::Empty));
}

#[test]
fn a_sign_alone_is_no_number() {
    assert_eq!(parse_u64("+"), Err(ParseError::InvalidDigit));
    assert_eq!(parse_u64("-"), Err(ParseError::InvalidDigit));
}

#[test]
fn anything_but_digits_is_refused() {
    assert_eq!(parse_u64("-1"), Err(ParseError::InvalidDigit));
    assert_eq!(parse_u64("++1"), Err(ParseError::InvalidDigit));
    assert_eq!(parse_u64("1+"), Err(ParseError::InvalidDigit));
    assert_eq!(parse_u64(" 1"), Err(ParseError::InvalidDigit));
    assert_eq!(parse_u64("1 "), Err(ParseError::InvalidDigit));
    assert_eq!(parse_u64("1_000"), Err(ParseError::InvalidDigit));
    assert_eq!(parse_u64("12a"), Err(ParseError::InvalidDigit));
    assert_eq!(parse_u64("0x10"), Err(ParseError::InvalidDigit));
    assert_eq!(parse_u64("1.5"), Err(ParseError::InvalidDigit));
    assert_eq!(parse_u64("５"), Err(ParseError::InvalidDigit));
    assert_eq!(parse_u64("/"), Err(ParseError::InvalidDigit));
    assert_eq!(parse_u64(":"), Err(ParseError::InvalidDigit));
}

#[test]
fn the_first_fault_from_the_left_decides() {
    assert_eq!(parse_u64("99999999999999999999x"), Err(ParseError::PosOverflow));
    assert_eq!(parse_u64("9999999999999999999x9"), Err(ParseError::InvalidDigit));
    assert_eq!(parse_u64("1844674407370955161x"), Err(ParseError::InvalidDigit));
    assert_eq!(parse_u64("18446744073709551615x"), Err(ParseError::InvalidDigit));
}

#[test]
fn parsing_agrees_with_the_standard_library() {
    let samples = [
        "", "+", "-", "0", "+0", "-0", "1", "42", "+42", "0042", "4 2", "42 ", " 42", "4_2",
        "18446744073709551615", "18446744073709551616", "18446744073709551614",
        "+18446744073709551616", "1844674407370955161", "184467440737095516159",
        "99999999999999999999x", "9999999999999999999x", "x99999999999999999999", "١٢٣", "1e3",
        "0x1f", "١", "+-1", "-+1", "++", "300", "100",
    ];
    for sample in samples {
        let ours = parse_u64(sample);
        let theirs = sample.parse::<u64>();
        match (&ours, &theirs) {
            (Ok(a), Ok(b)) => assert_eq!(a, b, "{sample:?}"),
            (Err(ours), Err(theirs)) => {
                assert_eq!(ours.message(), format!("{theirs}"), "{sample:?}")
            }
            _ => panic!("{sample:?}: {ours:?} against {theirs:?}"),
        }
    }
}

#[test]
fn the_messages_name_the_fault() {
    assert_eq!(ParseError::Empty.message(), "cannot parse integer from empty string");
    assert_eq!(ParseError::InvalidDigit.message(), "invalid digit found in string");
    assert_eq!(ParseError::PosOverflow.message(), "number too large to fit in target type");
}

#[test]
fn hex_is_right_aligned_in_sixteen_characters() {
    assert_eq!(hex16(0), "               0");
    assert_eq!(hex16(9), "               9");
    assert_eq!(hex16(10), "               a");
    assert_eq!(hex16(15), "               f");
    assert_eq!(hex16(16), "              10");
    assert_eq!(hex16(255), "              ff");
    assert_eq!(hex16(0xdead_beef), "        deadbeef");
    assert_eq!(hex16(0x0123_4567_89ab_cdef), " 123456789abcdef");
    assert_eq!(hex16(0x1000_0000_0000_0000), "1000000000000000");
    assert_eq!(hex16(u64::MAX), "ffffffffffffffff");
}

#[test]
fn hex_agrees_with_the_standard_library() {
    let mut n: u64 = 1;
    for _ in 0..200 {
        assert_eq!(hex16(n), format!("{:16x}", n));
        assert_eq!(hex16(n - 1), format!("{:16x}", n - 1));
        n = n.wrapping_mul(6364136223846793005).wrapping_add(1442695040888963407);
    }
    for shift in 0..64 {
        assert_eq!(hex16(1 << shift), format!("{:16x}", 1u64 << shift));
        assert_eq!(hex16((1 << shift) - 1), format!("{:16x}", (1u64 << shift) - 1));
    }
}

#[test]
fn hex_is_appended_to_what_is_there() {
    let mut text = String::from("key:");
    push_hex16(&mut text, 0xabc);
    push_hex16(&mut text, 0);
    assert_eq!(text, "key:             abc               0");
    assert_eq!(text.len(), 4 + 32);
}
