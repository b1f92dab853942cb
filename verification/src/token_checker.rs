//! Coercion of raw text values to typed parameter values.
//!
//! A value arrives as text (usually hexadecimal) and must be turned into a
//! token of the parameter's declared type before it can populate a topic
//! slot.  The hexadecimal and numeric parsing is delegated to outside
//! parsers behind trusted wrappers whose contracts state exactly which
//! texts parse and to which bytes.

use vstd::prelude::*;
use crate::errors::Error;

verus! {

/// The declared type of an event parameter.
#[derive(Clone, Copy, Debug, PartialEq, Eq, Structural)]
pub enum ParamType {
    Address,
    Bytes,
    Int(usize),
    Uint(usize),
    Bool,
    String,
    FixedBytes(usize),
    Array,
    FixedArray,
    Tuple,
}

/// A coerced value, ready to populate a topic slot.
#[derive(Debug)]
pub enum Token {
    /// Twenty bytes of account address.
    Address(Vec<u8>),
    /// A free-length byte string.
    Bytes(Vec<u8>),
    /// A signed number, thirty-two bytes big-endian.
    Int(Vec<u8>),
    /// An unsigned number, thirty-two bytes big-endian.
    Uint(Vec<u8>),
    Bool(bool),
    String(String),
    /// A byte string of one of the declared fixed sizes.
    FixedBytes(Vec<u8>),
}

/// The mathematical value of a token.
pub enum TokenModel {
    Address(Seq<u8>),
    Bytes(Seq<u8>),
    Int(Seq<u8>),
    Uint(Seq<u8>),
    Bool(bool),
    String(Seq<char>),
    FixedBytes(Seq<u8>),
}

impl View for Token {
    type V = TokenModel;

    open spec fn view(&self) -> TokenModel {
        match self {
            Token::Address(b) => TokenModel::Address(b@),
            Token::Bytes(b) => TokenModel::Bytes(b@),
            Token::Int(b) => TokenModel::Int(b@),
            Token::Uint(b) => TokenModel::Uint(b@),
            Token::Bool(b) => TokenModel::Bool(*b),
            Token::String(s) => TokenModel::String(s@),
            Token::FixedBytes(b) => TokenModel::FixedBytes(b@),
        }
    }
}

/// Whether a token's runtime shape matches a declared type: the variants
/// must agree, and a fixed-size byte string must have the declared size.
pub open spec fn token_matches(t: TokenModel, k: ParamType) -> bool {
    match t {
        TokenModel::Address(_) => k is Address,
        TokenModel::Bytes(_) => k is Bytes,
        TokenModel::Int(_) => k is Int,
        TokenModel::Uint(_) => k is Uint,
        TokenModel::Bool(_) => k is Bool,
        TokenModel::String(_) => k is String,
        TokenModel::FixedBytes(b) => k is FixedBytes && k->FixedBytes_0 == b.len(),
    }
}

impl Token {
    /// Reports whether this token's runtime shape matches the declared type.
    pub fn type_check(&self, kind: &ParamType) -> (r: bool)
        ensures
            r == token_matches(self@, *kind),
    {
        match self {
            Token::Address(_) => matches!(kind, ParamType::Address),
            Token::Bytes(_) => matches!(kind, ParamType::Bytes),
            Token::Int(_) => matches!(kind, ParamType::Int(_)),
            Token::Uint(_) => matches!(kind, ParamType::Uint(_)),
            Token::Bool(_) => matches!(kind, ParamType::Bool),
            Token::String(_) => matches!(kind, ParamType::String),
            Token::FixedBytes(b) => match kind {
                ParamType::FixedBytes(n) => b.len() == *n,
                _ => false,
            },
        }
    }
}

/// The text with one leading `0x` removed, if present.
pub open spec fn strip_0x(s: Seq<char>) -> Seq<char> {
    if s.len() >= 2 && s[0] == '0' && s[1] == 'x' {
        s.subrange(2, s.len() as int)
    } else {
        s
    }
}

pub open spec fn is_hex_digit(c: char) -> bool {
    ('0' <= c && c <= '9') || ('a' <= c && c <= 'f') || ('A' <= c && c <= 'F')
}

/// The characters the hexadecimal decoder silently skips.
pub open spec fn is_hex_space(c: char) -> bool {
    c == ' ' || c == '\r' || c == '\n' || c == '\t'
}

pub open spec fn hex_val(c: char) -> nat {
    if '0' <= c && c <= '9' {
        (c as nat - '0' as nat) as nat
    } else if 'a' <= c && c <= 'f' {
        (c as nat - 'a' as nat + 10) as nat
    } else if 'A' <= c && c <= 'F' {
        (c as nat - 'A' as nat + 10) as nat
    } else {
        0
    }
}

/// The hexadecimal digits of a text, in order, with skipped characters removed.
pub open spec fn hex_digits_of(s: Seq<char>) -> Seq<char> {
    s.filter(|c: char| is_hex_digit(c))
}

/// Whether a text consists of hexadecimal digits and skipped characters only.
pub open spec fn hex_clean(s: Seq<char>) -> bool {
    forall|i: int| 0 <= i < s.len() ==> is_hex_digit(#[trigger] s[i]) || is_hex_space(s[i])
}

/// Pairwise decoding of an even-length run of hexadecimal digits.
pub open spec fn hex_pairs_decode(d: Seq<char>) -> Seq<u8> {
    Seq::new(d.len() / 2, |i: int| (hex_val(d[2 * i]) * 16 + hex_val(d[2 * i + 1])) as u8)
}

/// The digits left-padded with `0` to sixty-four places.
pub open spec fn hex_pad64(d: Seq<char>) -> Seq<char> {
    Seq::new((64 - d.len()) as nat, |i: int| '0') + d
}

/// Whether a text is acceptable to the strict 256-bit number parser.
pub open spec fn u256_text_ok(t: Seq<char>) -> bool {
    t.len() <= 64 && (forall|i: int| 0 <= i < t.len() ==> is_hex_digit(#[trigger] t[i]))
}

/// Relies on `str::from_hex` of rustc-hex: blank characters are skipped, the
/// hexadecimal digits are decoded pairwise, and any other character or an odd
/// digit count is an error.
#[verifier::external_body]
fn hex_decode(s: &str) -> (r: Result<Vec<u8>, ()>)
    ensures
        r is Ok <==> (hex_clean(s@) && hex_digits_of(s@).len() % 2 == 0),
        r is Ok ==> r->Ok_0@ == hex_pairs_decode(hex_digits_of(s@)),
{
    match rustc_hex::FromHex::from_hex::<Vec<u8>>(s) {
        Ok(v) => Ok(v),
        Err(_) => Err(()),
    }
}

/// Relies on `H160::from_str` of ethereum-types: one leading `0x` is
/// stripped, blank characters are skipped, and exactly forty hexadecimal
/// digits must remain, decoded pairwise big-endian.
#[verifier::external_body]
pub(crate) fn parse_address(s: &str) -> (r: Result<Vec<u8>, ()>)
    ensures
        r is Ok <==> (hex_clean(strip_0x(s@)) && hex_digits_of(strip_0x(s@)).len() == 40),
        r is Ok ==> r->Ok_0@ == hex_pairs_decode(hex_digits_of(strip_0x(s@))),
{
    match <ethereum_types::H160 as core::str::FromStr>::from_str(s) {
        Ok(h) => Ok(h.0.to_vec()),
        Err(_) => Err(()),
    }
}

/// Relies on `U256::from_str` of ethereum-types: one leading `0x` is
/// stripped, at most sixty-four strict hexadecimal digits may remain (an
/// empty text is zero), and the value is returned as thirty-two bytes
/// big-endian.
#[verifier::external_body]
fn parse_u256(s: &str) -> (r: Result<Vec<u8>, ()>)
    ensures
        r is Ok <==> u256_text_ok(strip_0x(s@)),
        r is Ok ==> r->Ok_0@ == hex_pairs_decode(hex_pad64(strip_0x(s@))),
{
    match <ethereum_types::U256 as core::str::FromStr>::from_str(s) {
        Ok(v) => Ok(v.to_big_endian().to_vec()),
        Err(_) => Err(()),
    }
}

/// Relies on `bool::from_str` of std: only the exact texts `true` and
/// `false` parse.
#[verifier::external_body]
fn parse_bool(s: &str) -> (r: Result<bool, ()>)
    ensures
        r is Ok <==> (s@ == "true"@ || s@ == "false"@),
        r is Ok ==> r->Ok_0 == (s@ == "true"@),
{
    match <bool as core::str::FromStr>::from_str(s) {
        Ok(b) => Ok(b),
        Err(_) => Err(()),
    }
}

/// Strips a leading `0x` from a hexadecimal text value, if present.
pub fn remove_0x(input: &str) -> (r: &str)
    ensures
        r@ == strip_0x(input@),
{
    let n = input.unicode_len();
    if n >= 2 && input.get_char(0) == '0' && input.get_char(1) == 'x' {
        input.substring_char(2, n)
    } else {
        input
    }
}

/// Compares two texts by their characters.
pub fn str_eq(a: &str, b: &str) -> (r: bool)
    ensures
        r == (a@ == b@),
{
    let sa: String = a.to_owned();
    let sb: String = b.to_owned();
    sa == sb
}

/// The sizes a fixed-length byte string may have.
pub open spec fn fixed_size_ok(n: nat) -> bool {
    n == 1 || n == 2 || n == 3 || n == 4 || n == 5 || n == 8 || n == 16 || n == 32 || n == 64
        || n == 128 || n == 256 || n == 512 || n == 1024
}

/// Whether a raw text coerces to the declared type.
pub open spec fn coerce_ok(k: ParamType, v: Seq<char>) -> bool {
    match k {
        ParamType::Address => hex_clean(strip_0x(strip_0x(v))) && hex_digits_of(
            strip_0x(strip_0x(v)),
        ).len() == 40,
        ParamType::Bytes => hex_clean(strip_0x(v)) && hex_digits_of(strip_0x(v)).len() % 2 == 0,
        ParamType::Int(_) => u256_text_ok(strip_0x(strip_0x(v))),
        ParamType::Uint(_) => u256_text_ok(strip_0x(strip_0x(v))),
        ParamType::Bool => v == "true"@ || v == "false"@,
        ParamType::String => true,
        ParamType::FixedBytes(_) => hex_clean(strip_0x(v)) && hex_digits_of(strip_0x(v)).len() % 2
            == 0 && fixed_size_ok(hex_digits_of(strip_0x(v)).len() / 2),
        ParamType::Array => false,
        ParamType::FixedArray => false,
        ParamType::Tuple => false,
    }
}

/// The token a raw text coerces to, when coercion succeeds.
pub open spec fn coerce_val(k: ParamType, v: Seq<char>) -> TokenModel {
    match k {
        ParamType::Address => TokenModel::Address(
            hex_pairs_decode(hex_digits_of(strip_0x(strip_0x(v)))),
        ),
        ParamType::Bytes => TokenModel::Bytes(hex_pairs_decode(hex_digits_of(strip_0x(v)))),
        ParamType::Int(_) => TokenModel::Int(hex_pairs_decode(hex_pad64(strip_0x(strip_0x(v))))),
        ParamType::Uint(_) => TokenModel::Uint(hex_pairs_decode(hex_pad64(strip_0x(strip_0x(v))))),
        ParamType::Bool => TokenModel::Bool(v == "true"@),
        ParamType::String => TokenModel::String(v),
        ParamType::FixedBytes(_) => TokenModel::FixedBytes(
            hex_pairs_decode(hex_digits_of(strip_0x(v))),
        ),
        ParamType::Array => TokenModel::Bool(false),
        ParamType::FixedArray => TokenModel::Bool(false),
        ParamType::Tuple => TokenModel::Bool(false),
    }
}

/// Coerces a raw text value to the declared parameter type.
pub fn check_type(param_type: &ParamType, value: &str) -> (r: Result<Token, Error>)
    ensures
        r is Ok <==> coerce_ok(*param_type, value@),
        r is Ok ==> r->Ok_0@ == coerce_val(*param_type, value@),
        r is Err ==> r->Err_0 == Error::TypeCoercion,
{
    match param_type {
        ParamType::Address => {
            let stripped = remove_0x(value);
            match parse_address(stripped) {
                Ok(v) => Ok(Token::Address(v)),
                Err(_) => Err(Error::TypeCoercion),
            }
        },
        ParamType::Bytes => {
            let stripped = remove_0x(value);
            match hex_decode(stripped) {
                Ok(v) => Ok(Token::Bytes(v)),
                Err(_) => Err(Error::TypeCoercion),
            }
        },
        ParamType::Int(_) => {
            let stripped = remove_0x(value);
            match parse_u256(stripped) {
                Ok(v) => Ok(Token::Int(v)),
                Err(_) => Err(Error::TypeCoercion),
            }
        },
        ParamType::Uint(_) => {
            let stripped = remove_0x(value);
            match parse_u256(stripped) {
                Ok(v) => Ok(Token::Uint(v)),
                Err(_) => Err(Error::TypeCoercion),
            }
        },
        ParamType::Bool => match parse_bool(value) {
            Ok(b) => Ok(Token::Bool(b)),
            Err(_) => Err(Error::TypeCoercion),
        },
        ParamType::String => Ok(Token::String(value.to_owned())),
        ParamType::FixedBytes(_) => {
            let stripped = remove_0x(value);
            match hex_decode(stripped) {
                Ok(v) => {
                    let size = v.len();
                    if size == 1 || size == 2 || size == 3 || size == 4 || size == 5 || size == 8
                        || size == 16 || size == 32 || size == 64 || size == 128 || size == 256
                        || size == 512 || size == 1024 {
                        Ok(Token::FixedBytes(v))
                    } else {
                        Err(Error::TypeCoercion)
                    }
                },
                Err(_) => Err(Error::TypeCoercion),
            }
        },
        ParamType::Array => Err(Error::TypeCoercion),
        ParamType::FixedArray => Err(Error::TypeCoercion),
        ParamType::Tuple => Err(Error::TypeCoercion),
    }
}

pub open spec fn dec_digit_char(d: nat) -> char {
    if d == 0 {
        '0'
    } else if d == 1 {
        '1'
    } else if d == 2 {
        '2'
    } else if d == 3 {
        '3'
    } else if d == 4 {
        '4'
    } else if d == 5 {
        '5'
    } else if d == 6 {
        '6'
    } else if d == 7 {
        '7'
    } else if d == 8 {
        '8'
    } else {
        '9'
    }
}

/// The decimal text of a number.
pub open spec fn dec_digits(n: nat) -> Seq<char>
    decreases n,
{
    if n < 10 {
        seq![dec_digit_char(n)]
    } else {
        dec_digits(n / 10) + seq![dec_digit_char(n % 10)]
    }
}

fn digit_str(d: usize) -> (r: &'static str)
    requires
        d < 10,
    ensures
        r@ == seq![dec_digit_char(d as nat)],
{
    let r: &'static str = match d {
        0 => "0",
        1 => "1",
        2 => "2",
        3 => "3",
        4 => "4",
        5 => "5",
        6 => "6",
        7 => "7",
        8 => "8",
        _ => "9",
    };
    proof {
        reveal_strlit("0");
        reveal_strlit("1");
        reveal_strlit("2");
        reveal_strlit("3");
        reveal_strlit("4");
        reveal_strlit("5");
        reveal_strlit("6");
        reveal_strlit("7");
        reveal_strlit("8");
        reveal_strlit("9");
        assert(r@ =~= seq![dec_digit_char(d as nat)]);
    }
    r
}

/// Renders a number as decimal text.
pub fn dec_str(n: usize) -> (s: String)
    ensures
        s@ == dec_digits(n as nat),
    decreases n,
{
    if n < 10 {
        digit_str(n).to_owned()
    } else {
        let mut s = dec_str(n / 10);
        s.append(digit_str(n % 10));
        s
    }
}

pub open spec fn hex_char_of(d: nat) -> char {
    if d < 10 {
        dec_digit_char(d)
    } else if d == 10 {
        'a'
    } else if d == 11 {
        'b'
    } else if d == 12 {
        'c'
    } else if d == 13 {
        'd'
    } else if d == 14 {
        'e'
    } else {
        'f'
    }
}

/// The lowercase hexadecimal text of a byte string, two digits per byte.
pub open spec fn hex_text(b: Seq<u8>) -> Seq<char>
    decreases b.len(),
{
    if b.len() == 0 {
        Seq::empty()
    } else {
        hex_text(b.drop_last()) + seq![
            hex_char_of(b.last() as nat / 16),
            hex_char_of(b.last() as nat % 16),
        ]
    }
}

fn hex_nibble_str(d: u8) -> (r: &'static str)
    requires
        d < 16,
    ensures
        r@ == seq![hex_char_of(d as nat)],
{
    if d < 10 {
        digit_str(d as usize)
    } else {
        let r: &'static str = match d {
            10 => "a",
            11 => "b",
            12 => "c",
            13 => "d",
            14 => "e",
            _ => "f",
        };
        proof {
            reveal_strlit("a");
            reveal_strlit("b");
            reveal_strlit("c");
            reveal_strlit("d");
            reveal_strlit("e");
            reveal_strlit("f");
            assert(r@ =~= seq![hex_char_of(d as nat)]);
        }
        r
    }
}

/// Renders a byte string as lowercase hexadecimal text.
pub fn hex_string(b: &Vec<u8>) -> (s: String)
    ensures
        s@ == hex_text(b@),
{
    let mut s = String::new();
    let mut i: usize = 0;
    while i < b.len()
        invariant
            i <= b.len(),
            s@ == hex_text(b@.take(i as int)),
        decreases b.len() - i,
    {
        let byte = b[i];
        s.append(hex_nibble_str(byte / 16));
        s.append(hex_nibble_str(byte % 16));
        proof {
            assert(b@.take(i + 1 as int).drop_last() =~= b@.take(i as int));
            assert(b@.take(i + 1 as int).last() == b@[i as int]);
        }
        i = i + 1;
    }
    proof {
        assert(b@.take(b@.len() as int) =~= b@);
    }
    s
}

/// The text that names a declared parameter type.
pub open spec fn param_type_text(k: ParamType) -> Seq<char> {
    match k {
        ParamType::Address => "address"@,
        ParamType::Bytes => "bytes"@,
        ParamType::Int(n) => "int"@ + dec_digits(n as nat),
        ParamType::Uint(n) => "uint"@ + dec_digits(n as nat),
        ParamType::Bool => "bool"@,
        ParamType::String => "string"@,
        ParamType::FixedBytes(n) => "bytes"@ + dec_digits(n as nat),
        ParamType::Array => "array"@,
        ParamType::FixedArray => "fixedarray"@,
        ParamType::Tuple => "tuple"@,
    }
}

/// Renders a declared parameter type as its text name.
pub fn render_param_type(k: &ParamType) -> (s: String)
    ensures
        s@ == param_type_text(*k),
{
    match k {
        ParamType::Address => String::from_str("address"),
        ParamType::Bytes => String::from_str("bytes"),
        ParamType::Int(n) => String::from_str("int").concat(dec_str(*n).as_str()),
        ParamType::Uint(n) => String::from_str("uint").concat(dec_str(*n).as_str()),
        ParamType::Bool => String::from_str("bool"),
        ParamType::String => String::from_str("string"),
        ParamType::FixedBytes(n) => String::from_str("bytes").concat(dec_str(*n).as_str()),
        ParamType::Array => String::from_str("array"),
        ParamType::FixedArray => String::from_str("fixedarray"),
        ParamType::Tuple => String::from_str("tuple"),
    }
}

/// The declared type a bare type name denotes, if any.
pub open spec fn text_kind(s: Seq<char>) -> Option<ParamType> {
    if s == "address"@ {
        Some(ParamType::Address)
    } else if s == "bytes"@ {
        Some(ParamType::Bytes)
    } else if s == "int"@ {
        Some(ParamType::Int(256))
    } else if s == "uint"@ {
        Some(ParamType::Uint(256))
    } else if s == "bool"@ {
        Some(ParamType::Bool)
    } else if s == "string"@ {
        Some(ParamType::String)
    } else if s == "fixedbytes"@ {
        Some(ParamType::FixedBytes(32))
    } else {
        None
    }
}

/// Coerces a raw text value against a bare type name.
pub fn check(param_type_str: &str, value: &str) -> (r: Result<Token, Error>)
    ensures
        r is Ok <==> text_kind(param_type_str@) is Some && coerce_ok(
            text_kind(param_type_str@)->Some_0,
            value@,
        ),
        r is Ok ==> r->Ok_0@ == coerce_val(text_kind(param_type_str@)->Some_0, value@),
        r is Err ==> r->Err_0 == Error::TypeCoercion,
{
    proof {
        reveal_strlit("address");
        reveal_strlit("bytes");
        reveal_strlit("int");
        reveal_strlit("uint");
        reveal_strlit("bool");
        reveal_strlit("string");
        reveal_strlit("fixedbytes");
    }
    if str_eq(param_type_str, "address") {
        check_type(&ParamType::Address, value)
    } else if str_eq(param_type_str, "bytes") {
        check_type(&ParamType::Bytes, value)
    } else if str_eq(param_type_str, "int") {
        check_type(&ParamType::Int(256), value)
    } else if str_eq(param_type_str, "uint") {
        check_type(&ParamType::Uint(256), value)
    } else if str_eq(param_type_str, "bool") {
        check_type(&ParamType::Bool, value)
    } else if str_eq(param_type_str, "string") {
        check_type(&ParamType::String, value)
    } else if str_eq(param_type_str, "fixedbytes") {
        check_type(&ParamType::FixedBytes(32), value)
    } else {
        Err(Error::TypeCoercion)
    }
}

} // verus!

