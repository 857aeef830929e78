//! Text and ABI encodings of the values that are sent to the EVM canister.

use crate::did::U256;
use ethers_core::abi::{ParamType, Token};
use vstd::prelude::*;

verus! {

/// Lowercase hexadecimal digit of a value below 16.
pub open spec fn hex_digit(n: int) -> char {
    if n < 10 {
        (n + 48) as char
    } else {
        (n + 87) as char
    }
}

/// Two lowercase hexadecimal digits for each byte, high half first.
pub open spec fn hex_of(b: Seq<u8>) -> Seq<char> {
    Seq::new(
        2 * b.len(),
        |i: int|
            if i % 2 == 0 {
                hex_digit(b[i / 2] as int / 16)
            } else {
                hex_digit(b[i / 2] as int % 16)
            },
    )
}

pub open spec fn is_hex_char(c: char) -> bool {
    ('0' <= c && c <= '9') || ('a' <= c && c <= 'f') || ('A' <= c && c <= 'F')
}

/// Value of a hexadecimal digit of either case.
pub open spec fn hex_value(c: char) -> int {
    if '0' <= c && c <= '9' {
        c as int - 48
    } else if 'a' <= c && c <= 'f' {
        c as int - 87
    } else {
        c as int - 55
    }
}

/// Text of even length made of hexadecimal digits only.
pub open spec fn is_hex_text(s: Seq<char>) -> bool {
    s.len() % 2 == 0 && forall|i: int| 0 <= i < s.len() ==> is_hex_char(#[trigger] s[i])
}

/// The bytes that hexadecimal text stands for, two digits each.
pub open spec fn hex_decoded(s: Seq<char>) -> Seq<u8> {
    Seq::new(s.len() / 2, |i: int| (hex_value(s[2 * i]) * 16 + hex_value(s[2 * i + 1])) as u8)
}

/// Relies on `hex::encode`: two lowercase hexadecimal digits for each byte, in order.
#[verifier::external_body]
fn encode_hex(bytes: &Vec<u8>) -> (r: String)
    ensures
        r@ == hex_of(bytes@),
{
    hex::encode(bytes)
}

/// Relies on `hex::decode`: text of even length whose characters are all
/// hexadecimal digits, of either case, decodes two digits to a byte, high half
/// first; any other text is an error.
#[verifier::external_body]
fn decode_hex(text: &str) -> (r: Option<Vec<u8>>)
    ensures
        r is Some <==> is_hex_text(text@),
        r matches Some(b) ==> b@ == hex_decoded(text@),
{
    hex::decode(text).ok()
}

/// Hexadecimal text of bytes, as the EVM canister takes call data and code.
pub fn to_hex_text(bytes: &Vec<u8>) -> (r: String)
    ensures
        r@ == hex_of(bytes@),
{
    encode_hex(bytes)
}

/// Bytes of hexadecimal text, such as compiled contract code; `None` when the
/// text is not hexadecimal.
pub fn from_hex_text(text: &str) -> (r: Option<Vec<u8>>)
    ensures
        r is Some <==> is_hex_text(text@),
        r matches Some(b) ==> b@ == hex_decoded(text@),
{
    decode_hex(text)
}

/// An argument of a contract function.
#[derive(Debug, Clone, PartialEq, Eq)]
pub enum AbiToken {
    String(String),
    Uint(U256),
    StringArray(Vec<String>),
    UintArray(Vec<U256>),
}

/// The declared type of a contract function's parameter.
#[derive(Debug, Clone, Copy, PartialEq, Eq)]
pub enum AbiType {
    String,
    /// An unsigned integer of this many bits.
    Uint(usize),
    StringArray,
    /// An array of unsigned integers of this many bits.
    UintArray(usize),
}

/// Whether an argument has the declared type: an integer fits any integer
/// type, and an array fits an array type when each of its elements fits the
/// element type (so an empty array fits either array type).
pub open spec fn token_fits(t: AbiToken, p: AbiType) -> bool {
    match t {
        AbiToken::String(_) => p is String,
        AbiToken::Uint(_) => p is Uint,
        AbiToken::StringArray(v) => p is StringArray || (p is UintArray && v@.len() == 0),
        AbiToken::UintArray(v) => p is UintArray || (p is StringArray && v@.len() == 0),
    }
}

/// Whether the arguments match the declared parameters one for one.
pub open spec fn types_fit(params: Seq<AbiType>, args: Seq<AbiToken>) -> bool {
    params.len() == args.len() && forall|i: int| 0 <= i < args.len() ==> token_fits(
        #[trigger] args[i],
        params[i],
    )
}

fn token_fits_check(t: &AbiToken, p: AbiType) -> (r: bool)
    ensures
        r == token_fits(*t, p),
{
    match t {
        AbiToken::String(_) => matches!(p, AbiType::String),
        AbiToken::Uint(_) => matches!(p, AbiType::Uint(_)),
        AbiToken::StringArray(v) => matches!(p, AbiType::StringArray) || (matches!(
            p,
            AbiType::UintArray(_)
        ) && v.len() == 0),
        AbiToken::UintArray(v) => matches!(p, AbiType::UintArray(_)) || (matches!(
            p,
            AbiType::StringArray
        ) && v.len() == 0),
    }
}

/// Whether the arguments match the declared parameters one for one.
pub fn arguments_fit(params: &Vec<AbiType>, args: &Vec<AbiToken>) -> (r: bool)
    ensures
        r == types_fit(params@, args@),
{
    if params.len() != args.len() {
        return false;
    }
    let mut i: usize = 0;
    while i < args.len()
        invariant
            i <= args@.len(),
            params@.len() == args@.len(),
            forall|j: int| 0 <= j < i ==> token_fits(#[trigger] args@[j], params@[j]),
        decreases args@.len() - i,
    {
        if !token_fits_check(&args[i], params[i]) {
            return false;
        }
        i = i + 1;
    }
    true
}

/// The contract ABI encoding of a sequence of arguments.
pub uninterp spec fn abi_encoding(tokens: Seq<AbiToken>) -> Seq<u8>;

/// The four-byte selector of the function `name` with parameters `params`.
pub uninterp spec fn selector_of(name: Seq<char>, params: Seq<AbiType>) -> Seq<u8>;

/// Relies on `ethers_core::abi::encode`: the head/tail ABI encoding of the
/// arguments, which depends on them alone; no arguments encode to no bytes.
#[verifier::external_body]
fn abi_encode(tokens: &Vec<AbiToken>) -> (r: Vec<u8>)
    ensures
        r@ == abi_encoding(tokens@),
        tokens@.len() == 0 ==> r@.len() == 0,
{
    let uint = |v: &U256| Token::Uint(ethers_core::types::U256(v.0));
    let text = |s: &String| Token::String(s.clone());
    let converted: Vec<Token> = tokens.iter().map(|t| match t {
        AbiToken::String(s) => text(s),
        AbiToken::Uint(v) => uint(v),
        AbiToken::StringArray(v) => Token::Array(v.iter().map(text).collect()),
        AbiToken::UintArray(v) => Token::Array(v.iter().map(uint).collect()),
    }).collect();
    ethers_core::abi::encode(&converted)
}

/// Relies on `ethers_core::abi::short_signature`: the first four bytes of the
/// Keccak-256 digest of the text `name(type,...)`, which depends on the name
/// and the types alone.
#[verifier::external_body]
fn function_selector(name: &str, params: &Vec<AbiType>) -> (r: [u8; 4])
    ensures
        r@ == selector_of(name@, params@),
{
    let types: Vec<ParamType> = params.iter().map(|p| match *p {
        AbiType::String => ParamType::String,
        AbiType::Uint(bits) => ParamType::Uint(bits),
        AbiType::StringArray => ParamType::Array(Box::new(ParamType::String)),
        AbiType::UintArray(bits) => ParamType::Array(Box::new(ParamType::Uint(bits))),
    }).collect();
    ethers_core::abi::short_signature(name, &types)
}

/// Appends `tail` to `head`.
fn concat(head: &mut Vec<u8>, tail: &Vec<u8>)
    ensures
        final(head)@ == old(head)@ + tail@,
{
    let mut i: usize = 0;
    while i < tail.len()
        invariant
            i <= tail@.len(),
            head@ == old(head)@ + tail@.subrange(0, i as int),
        decreases tail@.len() - i,
    {
        head.push(tail[i]);
        i = i + 1;
        assert(tail@.subrange(0, i as int) =~= tail@.subrange(0, i as int - 1).push(
            tail@[i as int - 1],
        ));
    }
    assert(tail@.subrange(0, tail@.len() as int) =~= tail@);
}

/// Call data of a contract function: its selector, then its ABI-encoded
/// arguments.
pub fn call_data(selector: &[u8; 4], encoded_args: &Vec<u8>) -> (r: Vec<u8>)
    ensures
        r@ == selector@ + encoded_args@,
{
    let mut r: Vec<u8> = Vec::new();
    let mut i: usize = 0;
    while i < 4
        invariant
            i <= 4,
            r@ == selector@.subrange(0, i as int),
        decreases 4 - i,
    {
        r.push(selector[i]);
        i = i + 1;
        assert(selector@.subrange(0, i as int) =~= selector@.subrange(0, i as int - 1).push(
            selector@[i as int - 1],
        ));
    }
    assert(selector@.subrange(0, 4) =~= selector@);
    concat(&mut r, encoded_args);
    r
}

/// Call data for the function `name` with parameters `params`: its selector,
/// then the ABI-encoded arguments. `None` when the arguments do not match the
/// parameters.
pub fn encode_function_call(name: &str, params: &Vec<AbiType>, args: &Vec<AbiToken>) -> (r: Option<
    Vec<u8>,
>)
    ensures
        types_fit(params@, args@) ==> (r matches Some(data) && data@ == selector_of(name@, params@)
            + abi_encoding(args@)),
        !types_fit(params@, args@) ==> r is None,
{
    if !arguments_fit(params, args) {
        return None;
    }
    let selector = function_selector(name, params);
    let encoded = abi_encode(args);
    Some(call_data(&selector, &encoded))
}

/// Creation payload of a contract: its code followed by the ABI-encoded
/// constructor arguments.
pub fn encode_constructor_call(code: &Vec<u8>, args: &Vec<AbiToken>) -> (r: Vec<u8>)
    ensures
        r@ == code@ + abi_encoding(args@),
        args@.len() == 0 ==> r@ == code@,
{
    let encoded = abi_encode(args);
    let mut r = code.clone();
    concat(&mut r, &encoded);
    proof {
        if args@.len() == 0 {
            assert(r@ =~= code@);
        }
    }
    r
}

} // verus!
