//! Byte-level tokenizer behaviour on concrete streams.

use xcactivitylog::parser::{Parser, TokenizeError};
use xcactivitylog::token::{Token, TokenType};

fn tokens_of(bytes: &[u8]) -> Vec<Token> {
    let parser = Parser::new(bytes.to_vec());
    let mut iter = parser.iter();
    iter.collect_tokens()
}

#[test]
fn header_only_yields_no_tokens() {
    let toks = tokens_of(b"SLF0");
    assert_eq!(toks.len(), 0);
}

#[test]
fn single_integer() {
    let toks = tokens_of(b"SLF042#");
    assert_eq!(toks, vec![Token::Int(42)]);
}

#[test]
fn single_string() {
    let toks = tokens_of(b"SLF05\"hello");
    assert_eq!(toks, vec![Token::String(String::from("hello"))]);
}

#[test]
fn single_double_is_one() {
    let toks = tokens_of(b"SLF0000000000000f03f^");
    assert_eq!(toks.len(), 1);
    match &toks[0] {
        Token::Double(bits) => assert_eq!(f64::from_bits(*bits), 1.0),
        other => panic!("expected a double, got {:?}", other),
    }
}

#[test]
fn double_round_trips_through_hex_little_endian() {
    for value in [0.0f64, 1.0, -2.5, 3.141592653589793, 1e300, -1e-300] {
        let mut bytes = b"SLF0".to_vec();
        for b in value.to_le_bytes() {
            bytes.extend_from_slice(format!("{:02x}", b).as_bytes());
        }
        bytes.push(b'^');
        let toks = tokens_of(&bytes);
        assert_eq!(toks.len(), 1);
        match &toks[0] {
            Token::Double(bits) => assert_eq!(f64::from_bits(*bits), value),
            other => panic!("expected a double, got {:?}", other),
        }
    }
}

#[test]
fn upper_case_hex_is_accepted() {
    let toks = tokens_of(b"SLF0000000000000F03F^");
    assert_eq!(toks, vec![Token::Double(0x3FF0000000000000u64)]);
}

#[test]
fn null_array_class_tokens() {
    let toks = tokens_of(b"SLF0-7(21%IDEActivityLogSection3@");
    assert_eq!(
        toks,
        vec![
            Token::Null,
            Token::Array(7),
            Token::ClassName(String::from("IDEActivityLogSection")),
            Token::ClassInstance(3),
        ]
    );
}

#[test]
fn json_token_carries_raw_text() {
    let toks = tokens_of(b"SLF014*{\"answer\": 42}");
    assert_eq!(toks, vec![Token::Json(String::from("{\"answer\": 42}"))]);
}

#[test]
fn framing_splits_prefix_sigil_payload() {
    let toks = tokens_of(b"SLF012#4\"abcd7(");
    assert_eq!(
        toks,
        vec![Token::Int(12), Token::String(String::from("abcd")), Token::Array(7)]
    );
}

#[test]
fn multibyte_utf8_payload_is_decoded() {
    // The byte length prefix counts bytes, not characters.
    let mut bytes = b"SLF02\"".to_vec();
    bytes.extend_from_slice("é".as_bytes());
    let toks = tokens_of(&bytes);
    assert_eq!(toks, vec![Token::String(String::from("é"))]);
}

#[test]
fn iteration_stops_at_first_error() {
    // A valid integer, then a payload that runs past the end of input.
    let toks = tokens_of(b"SLF01#9\"ab");
    assert_eq!(toks, vec![Token::Int(1)]);
}

#[test]
fn invalid_utf8_payload_stops_iteration() {
    let toks = tokens_of(b"SLF01\"\xff2#");
    assert_eq!(toks.len(), 0);
}

#[test]
fn scan_token_reports_null_with_prefix() {
    let mut parser = Parser::new(b"1-".to_vec());
    assert_eq!(parser.scan_token(), Err(TokenizeError::NullWithPrefix));
}

#[test]
fn scan_token_reports_invalid_number() {
    let mut parser = Parser::new(b"abc#".to_vec());
    assert_eq!(parser.scan_token(), Err(TokenizeError::InvalidNumber));
}

#[test]
fn scan_token_reports_empty_prefix_as_invalid_number() {
    let mut parser = Parser::new(b"#".to_vec());
    assert_eq!(parser.scan_token(), Err(TokenizeError::InvalidNumber));
}

#[test]
fn scan_token_reports_invalid_double() {
    let mut parser = Parser::new(b"zz^".to_vec());
    assert_eq!(parser.scan_token(), Err(TokenizeError::InvalidDouble));
}

#[test]
fn scan_token_reports_eof() {
    let mut parser = Parser::new(b"123".to_vec());
    assert_eq!(parser.scan_token(), Err(TokenizeError::UnexpectedEof));
    let mut parser = Parser::new(b"5\"abc".to_vec());
    assert_eq!(parser.scan_token(), Err(TokenizeError::UnexpectedEof));
}

#[test]
fn scan_token_reports_invalid_utf8() {
    let mut parser = Parser::new(b"1\"\xff".to_vec());
    assert_eq!(parser.scan_token(), Err(TokenizeError::InvalidUtf8));
}

#[test]
fn oversized_number_is_invalid() {
    let mut parser = Parser::new(b"99999999999999999999#".to_vec());
    assert_eq!(parser.scan_token(), Err(TokenizeError::InvalidNumber));
}

#[test]
fn scan_header_needs_four_bytes() {
    let mut parser = Parser::new(b"SL".to_vec());
    assert_eq!(parser.scan_header(), Err(TokenizeError::UnexpectedEof));
    let mut parser = Parser::new(b"SLF042#".to_vec());
    assert_eq!(parser.scan_header(), Ok(()));
    assert_eq!(parser.scan_token(), Ok(Token::Int(42)));
}

#[test]
fn scan_lhs_and_token_type_splits_prefix() {
    let mut parser = Parser::new(b"123#".to_vec());
    let (lhs, tt) = parser.scan_lhs_and_token_type().unwrap();
    assert_eq!(lhs, Some(b"123".to_vec()));
    assert_eq!(tt, TokenType::Int);
    let mut parser = Parser::new(b"-".to_vec());
    let (lhs, tt) = parser.scan_lhs_and_token_type().unwrap();
    assert_eq!(lhs, None);
    assert_eq!(tt, TokenType::Null);
}

#[test]
fn type_labels() {
    assert_eq!(Token::Int(1).get_type_as_str(), "int");
    assert_eq!(Token::Double(0).get_type_as_str(), "double");
    assert_eq!(Token::ClassName(String::new()).get_type_as_str(), "class_name");
    assert_eq!(Token::ClassInstance(1).get_type_as_str(), "class_instance");
    assert_eq!(Token::String(String::new()).get_type_as_str(), "string");
    assert_eq!(Token::Null.get_type_as_str(), "null");
    assert_eq!(Token::Array(0).get_type_as_str(), "array");
    assert_eq!(Token::Json(String::new()).get_type_as_str(), "json");
}

#[test]
fn value_strings() {
    assert_eq!(Token::Int(42).value_string(), Some(String::from("42")));
    assert_eq!(Token::Int(0).value_string(), Some(String::from("0")));
    assert_eq!(
        Token::Int(18446744073709551615).value_string(),
        Some(String::from("18446744073709551615"))
    );
    assert_eq!(Token::ClassInstance(7).value_string(), Some(String::from("7")));
    assert_eq!(Token::Array(10).value_string(), Some(String::from("10")));
    assert_eq!(Token::Null.value_string(), Some(String::from("null")));
    assert_eq!(Token::String(String::from("hi")).value_string(), Some(String::from("hi")));
    assert_eq!(Token::Double(1).value_string(), None);
}

#[test]
fn conversions_accept_matching_kinds() {
    assert_eq!(Token::Int(9).to_u64(), Ok(9));
    assert!(Token::Null.to_u64().is_err());
    assert_eq!(Token::Int(0).to_bool(), Ok(false));
    assert_eq!(Token::Int(3).to_bool(), Ok(true));
    assert_eq!(Token::Array(4).to_usize(), Ok(4));
    assert_eq!(Token::ClassInstance(5).to_usize(), Ok(5));
    assert!(Token::Int(5).to_usize().is_err());
    assert_eq!(Token::Double(77).to_double_bits(), Ok(77));
    assert_eq!(Token::String(String::from("x")).to_text(), Ok(String::from("x")));
    assert_eq!(Token::Int(255).to_i8(), Ok(-1));
    assert_eq!(Token::Int(127).to_i8(), Ok(127));
    assert_eq!(Token::Int(0xFFFF_FFFF).to_i32(), Ok(-1));
    assert_eq!(Token::Int(7).to_opt_u64(), Ok(Some(7)));
    assert_eq!(Token::Null.to_opt_u64(), Ok(None));
    assert_eq!(Token::Null.to_opt_text(), Ok(None));
    assert_eq!(Token::Null.to_opt_usize(), Ok(None));
    assert_eq!(Token::Array(2).to_opt_usize(), Ok(Some(2)));
    assert!(Token::ClassInstance(2).to_opt_usize().is_err());
    assert_eq!(Token::Double(9).to_opt_double_bits(), Ok(Some(9)));
    assert_eq!(Token::Null.to_opt_double_bits(), Ok(None));
    assert_eq!(Token::Int(2).to_opt_bool(), Ok(Some(true)));
    assert_eq!(Token::Null.to_opt_bool(), Ok(None));
    assert_eq!(Token::Int(255).to_opt_i8(), Ok(Some(-1)));
    assert_eq!(Token::Null.to_opt_i8(), Ok(None));
    assert_eq!(Token::Int(5).to_opt_i32(), Ok(Some(5)));
    assert_eq!(Token::Null.to_opt_i32(), Ok(None));
}

#[test]
fn json_value_conversion() {
    assert!(Token::Json(String::from("{\"a\": [1, 2]}")).to_json_value().is_ok());
    assert!(Token::Json(String::from("not json")).to_json_value().is_err());
    assert!(Token::Int(1).to_json_value().is_err());
}
