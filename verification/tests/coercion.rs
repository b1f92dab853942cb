use ethlogger::errors::Error;
use ethlogger::token_checker::{check, check_type, dec_str, hex_string, remove_0x,
    render_param_type, str_eq, ParamType, Token};

#[test]
fn remove_0x_strips_prefix() {
    assert_eq!(remove_0x("0xabc"), "abc");
    assert_eq!(remove_0x("abc"), "abc");
    assert_eq!(remove_0x("0x"), "");
    assert_eq!(remove_0x(""), "");
    assert_eq!(remove_0x("0x0xff"), "0xff");
}

#[test]
fn str_eq_compares_characters() {
    assert!(str_eq("uint", "uint"));
    assert!(!str_eq("uint", "int"));
    assert!(!str_eq("", "a"));
}

#[test]
fn dec_str_renders_decimal() {
    assert_eq!(dec_str(0), "0");
    assert_eq!(dec_str(7), "7");
    assert_eq!(dec_str(256), "256");
    assert_eq!(dec_str(1024), "1024");
}

#[test]
fn hex_string_renders_lowercase() {
    assert_eq!(hex_string(&vec![0x00u8, 0xab, 0x5f]), "00ab5f");
    assert_eq!(hex_string(&Vec::new()), "");
}

#[test]
fn render_param_type_names() {
    assert_eq!(render_param_type(&ParamType::Address), "address");
    assert_eq!(render_param_type(&ParamType::Uint(256)), "uint256");
    assert_eq!(render_param_type(&ParamType::Int(64)), "int64");
    assert_eq!(render_param_type(&ParamType::FixedBytes(32)), "bytes32");
    assert_eq!(render_param_type(&ParamType::Bool), "bool");
    assert_eq!(render_param_type(&ParamType::String), "string");
    assert_eq!(render_param_type(&ParamType::Bytes), "bytes");
}

#[test]
fn check_type_address_decodes_bytes() {
    let text = "0x00000000000000000000000000000000000000ab";
    match check_type(&ParamType::Address, text) {
        Ok(Token::Address(b)) => {
            assert_eq!(b.len(), 20);
            assert_eq!(b[19], 0xab);
            assert_eq!(b[0], 0x00);
        }
        _ => panic!("expected an address token"),
    }
}

#[test]
fn check_type_address_rejects_short_text() {
    match check_type(&ParamType::Address, "0xab") {
        Err(e) => assert_eq!(e, Error::TypeCoercion),
        Ok(_) => panic!("expected a coercion failure"),
    }
}

#[test]
fn check_type_uint_decodes_big_endian() {
    match check_type(&ParamType::Uint(256), "0x10") {
        Ok(Token::Uint(b)) => {
            assert_eq!(b.len(), 32);
            assert_eq!(b[31], 0x10);
            assert_eq!(b[0], 0x00);
        }
        _ => panic!("expected an unsigned token"),
    }
}

#[test]
fn check_type_uint_rejects_plain_words() {
    match check_type(&ParamType::Uint(256), "not-a-number") {
        Err(e) => assert_eq!(e, Error::TypeCoercion),
        Ok(_) => panic!("expected a coercion failure"),
    }
}

#[test]
fn check_type_int_uses_same_number_parser() {
    match check_type(&ParamType::Int(256), "ff") {
        Ok(Token::Int(b)) => {
            assert_eq!(b.len(), 32);
            assert_eq!(b[31], 0xff);
        }
        _ => panic!("expected a signed token"),
    }
}

#[test]
fn check_type_bool_parses_exact_words() {
    match check_type(&ParamType::Bool, "true") {
        Ok(Token::Bool(b)) => assert!(b),
        _ => panic!("expected a boolean token"),
    }
    match check_type(&ParamType::Bool, "false") {
        Ok(Token::Bool(b)) => assert!(!b),
        _ => panic!("expected a boolean token"),
    }
    assert!(check_type(&ParamType::Bool, "True").is_err());
}

#[test]
fn check_type_bytes_decodes_pairs() {
    match check_type(&ParamType::Bytes, "0xdead") {
        Ok(Token::Bytes(b)) => assert_eq!(b, vec![0xdeu8, 0xad]),
        _ => panic!("expected a bytes token"),
    }
    assert!(check_type(&ParamType::Bytes, "0xabc").is_err());
}

#[test]
fn check_type_string_keeps_text() {
    match check_type(&ParamType::String, "hello") {
        Ok(Token::String(s)) => assert_eq!(s, "hello"),
        _ => panic!("expected a text token"),
    }
}

#[test]
fn check_type_fixed_bytes_validates_size() {
    match check_type(&ParamType::FixedBytes(2), "0xbeef") {
        Ok(Token::FixedBytes(b)) => assert_eq!(b, vec![0xbeu8, 0xef]),
        _ => panic!("expected a fixed-size token"),
    }
    // six decoded bytes is not an accepted fixed size
    match check_type(&ParamType::FixedBytes(6), "0x000000000000") {
        Err(e) => assert_eq!(e, Error::TypeCoercion),
        Ok(_) => panic!("expected a coercion failure"),
    }
}

#[test]
fn check_type_rejects_unsupported_kinds() {
    assert!(check_type(&ParamType::Array, "1").is_err());
    assert!(check_type(&ParamType::FixedArray, "1").is_err());
    assert!(check_type(&ParamType::Tuple, "1").is_err());
}

#[test]
fn check_dispatches_on_type_name() {
    match check("uint", "0x10") {
        Ok(Token::Uint(b)) => assert_eq!(b[31], 0x10),
        _ => panic!("expected an unsigned token"),
    }
    match check("bool", "true") {
        Ok(Token::Bool(b)) => assert!(b),
        _ => panic!("expected a boolean token"),
    }
    match check("no-such-type", "1") {
        Err(e) => assert_eq!(e, Error::TypeCoercion),
        Ok(_) => panic!("expected a coercion failure"),
    }
}

#[test]
fn type_check_matches_variants() {
    let t = check_type(&ParamType::Uint(256), "1").unwrap();
    assert!(t.type_check(&ParamType::Uint(8)));
    assert!(!t.type_check(&ParamType::Int(256)));
    let f = check_type(&ParamType::FixedBytes(2), "0xbeef").unwrap();
    assert!(f.type_check(&ParamType::FixedBytes(2)));
    assert!(!f.type_check(&ParamType::FixedBytes(32)));
}
