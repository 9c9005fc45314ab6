use netcom::netstring::{encode_netstring, parse_netstring, NetstringError, ToNetstring};

#[test]
fn should_return_incomplete_for_short_inputs() {
    let cases = ["", "0", "0:"];
    for case in cases {
        assert_eq!(
            parse_netstring(case.as_bytes()),
            Err(NetstringError::Incomplete)
        );
    }
}

#[test]
fn should_fail_if_non_digits_before_colon() {
    assert_eq!(
        parse_netstring("11:".as_bytes()),
        Err(NetstringError::Incomplete)
    );
    assert_eq!(
        parse_netstring("1X:".as_bytes()),
        Err(NetstringError::Malformed)
    );
}

#[test]
fn should_require_one_or_more_digits_before_colon() {
    assert_eq!(
        parse_netstring(":abc,".as_bytes()),
        Err(NetstringError::Malformed)
    )
}

#[test]
fn should_return_incomplete_if_not_enough_data() {
    let cases = ["5:abc", "5:abcd", "5:abcde"];
    for case in cases {
        assert_eq!(
            parse_netstring(case.as_bytes()),
            Err(NetstringError::Incomplete)
        );
    }
}

#[test]
fn should_fail_if_no_comma_at_end_of_string() {
    assert_eq!(
        parse_netstring("5:abcde!".as_bytes()),
        Err(NetstringError::Malformed)
    );
}

#[test]
fn should_return_payload_and_offset_for_valid_netstrings() {
    let cases = [
        ("0:,", ""),
        ("1:x,", "x"),
        ("5:abcde,", "abcde"),
        ("16:abcdefghijklmnop,", "abcdefghijklmnop"),
    ];
    for case in cases {
        assert_eq!(parse_netstring(case.0.as_bytes()), Ok(case.1.as_bytes()));
    }
}

#[test]
fn encode_produces_the_exact_wire_form() {
    assert_eq!(encode_netstring(b"abcde"), b"5:abcde,".to_vec());
    assert_eq!(encode_netstring(b""), b"0:,".to_vec());
    assert_eq!(
        encode_netstring(b"abcdefghijklmnop"),
        b"16:abcdefghijklmnop,".to_vec()
    );
}

#[test]
fn string_to_netstring_counts_bytes() {
    let s = String::from("hello");
    assert_eq!(s.to_netstring(), b"5:hello,".to_vec());
    let empty = String::new();
    assert_eq!(empty.to_netstring(), b"0:,".to_vec());
}

#[test]
fn decode_of_encode_returns_the_payload() {
    let payloads: [&[u8]; 5] = [
        b"",
        b"x",
        b"hello world",
        &[0u8, 255u8, 44u8, 58u8, 10u8],
        &[7u8; 1000],
    ];
    for p in payloads {
        let framed = encode_netstring(p);
        assert_eq!(parse_netstring(&framed), Ok(p));
    }
}

#[test]
fn error_messages_name_the_kind() {
    assert_eq!(NetstringError::Incomplete.message(), "Incomplete netstring");
    assert_eq!(NetstringError::Malformed.message(), "Malformed netstring");
}
