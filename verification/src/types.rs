//! Shared plain types: addresses, identities, hex rendering and Ethereum
//! address validation, and the transient argument records that the decoder
//! hands to the engine core.

use vstd::prelude::*;
use vstd::string::StringExecFns;
use vstd::string::StringSliceAdditionalSpecFns;
use vstd::utf8::encode_utf8;
use crate::u256::U256;
use crate::wei::Wei;

verus! {

pub type Balance = u128;

pub type Gas = u64;

pub type StorageUsage = u64;

/// A 20-byte account address.
pub type EthAddress = [u8; 20];

pub type RawAddress = [u8; 20];

/// Big-endian 256-bit integer rendering.
pub type RawU256 = [u8; 32];

/// Unformatted binary data of fixed length.
pub type RawH256 = [u8; 32];

/// A host-side account identity, kept as its raw bytes.
pub type AccountId = Vec<u8>;

#[derive(Debug, PartialEq, Eq, Structural, Copy, Clone)]
pub struct U128(pub u128);

#[derive(Debug, PartialEq, Eq, Structural, Copy, Clone)]
pub enum AddressValidationError {
    FailedDecodeHex,
    IncorrectLength,
}

impl AddressValidationError {
    pub fn as_ref(&self) -> (r: &'static str)
        ensures
            *self == AddressValidationError::FailedDecodeHex ==> r@
                == "FAILED_DECODE_ETH_ADDRESS"@,
            *self == AddressValidationError::IncorrectLength ==> r@
                == "ETH_WRONG_ADDRESS_LENGTH"@,
    {
        match self {
            AddressValidationError::FailedDecodeHex => "FAILED_DECODE_ETH_ADDRESS",
            AddressValidationError::IncorrectLength => "ETH_WRONG_ADDRESS_LENGTH",
        }
    }
}

#[derive(Debug, PartialEq, Eq, Structural, Copy, Clone)]
pub enum ValidationError {
    EthAddressFailedDecode,
    WrongEthAddress,
}

impl ValidationError {
    pub fn as_ref(&self) -> (r: &'static str)
        ensures
            *self == ValidationError::EthAddressFailedDecode ==> r@
                == "FAILED_DECODE_ETH_ADDRESS"@,
            *self == ValidationError::WrongEthAddress ==> r@ == "WRONG_ETH_ADDRESS"@,
    {
        match self {
            ValidationError::EthAddressFailedDecode => "FAILED_DECODE_ETH_ADDRESS",
            ValidationError::WrongEthAddress => "WRONG_ETH_ADDRESS",
        }
    }
}

/// Internal errors propagated up from decoding, formatted in one place.
#[derive(Debug, PartialEq, Eq, Structural, Copy, Clone)]
pub enum ErrorKind {
    ArgumentParseError,
    InvalidMetaTransactionMethodName,
    InvalidMetaTransactionFunctionArg,
    InvalidEcRecoverSignature,
}

/// Result of an asynchronous host promise.
#[derive(Debug, PartialEq, Eq, Clone)]
pub enum PromiseResult {
    NotReady,
    Successful(Vec<u8>),
    Failed,
}

pub struct StorageBalanceBounds {
    pub min: Balance,
    pub max: Option<Balance>,
}

/// Outcome of resolving a bridged-token transfer.
pub struct FtResolveTransferResult {
    pub amount: Balance,
    pub refund_amount: Balance,
}

/// The decoded, authenticated form of a meta-transaction request.
#[derive(Debug)]
pub struct InternalMetaCallArgs {
    pub sender: EthAddress,
    pub nonce: U256,
    pub fee_amount: Wei,
    pub fee_address: EthAddress,
    pub contract_address: EthAddress,
    pub value: Wei,
    pub input: Vec<u8>,
}

/// The lower-case hex digit for a value below 16.
pub open spec fn hex_char(d: u8) -> char {
    if d == 0 {
        '0'
    } else if d == 1 {
        '1'
    } else if d == 2 {
        '2'
    } else if d == 3 {
        '3'
    } else if d == 4 {
        '4'
    } else if d == 5 {
        '5'
    } else if d == 6 {
        '6'
    } else if d == 7 {
        '7'
    } else if d == 8 {
        '8'
    } else if d == 9 {
        '9'
    } else if d == 10 {
        'a'
    } else if d == 11 {
        'b'
    } else if d == 12 {
        'c'
    } else if d == 13 {
        'd'
    } else if d == 14 {
        'e'
    } else {
        'f'
    }
}

/// Lower-case hex rendering of a byte sequence: two digits per byte.
pub open spec fn hex_of_bytes(bs: Seq<u8>) -> Seq<char>
    decreases bs.len(),
{
    if bs.len() == 0 {
        Seq::empty()
    } else {
        hex_of_bytes(bs.drop_last()) + seq![
            hex_char(bs.last() / 16),
            hex_char(bs.last() % 16),
        ]
    }
}

fn hex_digit_str(d: u8) -> (r: &'static str)
    requires
        d < 16,
    ensures
        r@ == seq![hex_char(d)],
{
    let r: &'static str = if d == 0 {
        "0"
    } else if d == 1 {
        "1"
    } else if d == 2 {
        "2"
    } else if d == 3 {
        "3"
    } else if d == 4 {
        "4"
    } else if d == 5 {
        "5"
    } else if d == 6 {
        "6"
    } else if d == 7 {
        "7"
    } else if d == 8 {
        "8"
    } else if d == 9 {
        "9"
    } else if d == 10 {
        "a"
    } else if d == 11 {
        "b"
    } else if d == 12 {
        "c"
    } else if d == 13 {
        "d"
    } else if d == 14 {
        "e"
    } else {
        "f"
    };
    proof {
        reveal_strlit("0");
        reveal_strlit("1");
        reveal_strlit("2");
        reveal_strlit("3");
        reveal_strlit("4");
        reveal_strlit("5");
        reveal_strlit("6");
        reveal_strlit("7");
        reveal_strlit("8");
        reveal_strlit("9");
        reveal_strlit("a");
        reveal_strlit("b");
        reveal_strlit("c");
        reveal_strlit("d");
        reveal_strlit("e");
        reveal_strlit("f");
        assert(r@ =~= seq![hex_char(d)]);
    }
    r
}

/// Renders bytes as lower-case hex, two digits per byte.
pub fn bytes_to_hex(v: &[u8]) -> (result: String)
    ensures
        result@ == hex_of_bytes(v@),
{
    let mut result = String::new();
    let mut i: usize = 0;
    while i < v.len()
        invariant
            i <= v.len(),
            result@ == hex_of_bytes(v@.take(i as int)),
        decreases v.len() - i,
    {
        let x = v[i];
        result.append(hex_digit_str(x / 16));
        result.append(hex_digit_str(x % 16));
        proof {
            assert(v@.take(i + 1 as int).drop_last() =~= v@.take(i as int));
            assert(v@.take(i + 1 as int).last() == v@[i as int]);
        }
        i = i + 1;
    }
    proof {
        assert(v@.take(v@.len() as int) =~= v@);
    }
    result
}

/// Whether a byte is an ASCII hex digit, either case.
pub open spec fn is_hex_digit_byte(b: u8) -> bool {
    (0x30 <= b && b <= 0x39) || (0x61 <= b && b <= 0x66) || (0x41 <= b && b <= 0x46)
}

/// The value of an ASCII hex digit.
pub open spec fn hex_digit_value(b: u8) -> u8 {
    if 0x30 <= b && b <= 0x39 {
        (b - 0x30) as u8
    } else if 0x61 <= b && b <= 0x66 {
        (b - 0x61 + 10) as u8
    } else {
        (b - 0x41 + 10) as u8
    }
}

/// Whether a byte sequence is well-formed hex: even length, digits only.
pub open spec fn is_hex_seq(s: Seq<u8>) -> bool {
    s.len() % 2 == 0 && forall|i: int| 0 <= i < s.len() ==> is_hex_digit_byte(s[i])
}

/// The bytes a well-formed hex sequence denotes, one per digit pair.
pub open spec fn hex_decoded(s: Seq<u8>) -> Seq<u8> {
    Seq::new(
        (s.len() / 2) as nat,
        |i: int| (hex_digit_value(s[2 * i]) * 16 + hex_digit_value(s[2 * i + 1])) as u8,
    )
}

/// Relies on hex::decode: it succeeds exactly on an even number of ASCII
/// hex digits (either case) and maps each digit pair to one byte, high
/// digit first.
#[verifier::external_body]
fn hex_decode_bytes(s: &[u8]) -> (r: Option<Vec<u8>>)
    ensures
        r is Some <==> is_hex_seq(s@),
        r is Some ==> r->Some_0@ == hex_decoded(s@),
{
    hex::decode(s).ok()
}

fn bytes_to_addr(data: &Vec<u8>) -> (r: EthAddress)
    requires
        data@.len() == 20,
    ensures
        r@ == data@,
{
    let r: [u8; 20] = [
        data[0],
        data[1],
        data[2],
        data[3],
        data[4],
        data[5],
        data[6],
        data[7],
        data[8],
        data[9],
        data[10],
        data[11],
        data[12],
        data[13],
        data[14],
        data[15],
        data[16],
        data[17],
        data[18],
        data[19],
    ];
    proof {
        assert(r@ =~= data@);
    }
    r
}

/// Validates a string as a 20-byte Ethereum address in hex.
pub fn validate_eth_address(address: String) -> (r: Result<EthAddress, AddressValidationError>)
    ensures
        r is Ok <==> is_hex_seq(encode_utf8(address@)) && encode_utf8(address@).len() == 40,
        r is Ok ==> r->Ok_0@ == hex_decoded(encode_utf8(address@)),
        r == Result::<EthAddress, AddressValidationError>::Err(
            AddressValidationError::FailedDecodeHex,
        ) <==> !is_hex_seq(encode_utf8(address@)),
        r == Result::<EthAddress, AddressValidationError>::Err(
            AddressValidationError::IncorrectLength,
        ) <==> is_hex_seq(encode_utf8(address@)) && encode_utf8(address@).len() != 40,
{
    let s = address.as_str();
    let bytes = s.as_bytes();
    assert(bytes@ == encode_utf8(address@));
    let data = match hex_decode_bytes(bytes) {
        Some(data) => data,
        None => {
            return Err(AddressValidationError::FailedDecodeHex);
        },
    };
    if data.len() != 20 {
        return Err(AddressValidationError::IncorrectLength);
    }
    Ok(bytes_to_addr(&data))
}


/// Relies on str::from_utf8: it succeeds exactly on valid UTF-8 and the
/// returned slice is backed by the given bytes.
#[verifier::external_body]
fn bytes_as_str(inp: &[u8]) -> (r: Option<&str>)
    ensures
        r is Some <==> vstd::utf8::valid_utf8(inp@),
        r is Some ==> r->Some_0.spec_bytes() == inp@,
{
    core::str::from_utf8(inp).ok()
}

/// The string backed by a valid UTF-8 byte slice.  Invalid bytes are ruled
/// out up front; this never panics.
pub fn str_from_slice(inp: &[u8]) -> (r: &str)
    requires
        vstd::utf8::valid_utf8(inp@),
    ensures
        r.spec_bytes() == inp@,
{
    match bytes_as_str(inp) {
        Some(s) => s,
        None => {
            proof {
                assert(false);
            }
            ""
        },
    }
}

} // verus!
