//! The scalar values of the query interface.

use vstd::prelude::*;
use crate::blockchain::primitives::{Bytes32 as RawBytes32, Tai64};
use crate::client::schema::ConversionError;
use crate::outside::{decode_hex, hex_decoded};
use vstd::string::StringSliceAdditionalSpecFns;

verus! {

/// An unsigned 64-bit scalar.
#[derive(Clone, Copy, Debug, PartialEq, Eq, Structural, Default)]
pub struct U64(pub u64);

/// An unsigned 32-bit scalar.
#[derive(Clone, Copy, Debug, PartialEq, Eq, Structural, Default)]
pub struct U32(pub u32);

/// A 32-byte scalar.
#[derive(Clone, Copy, Debug, PartialEq, Eq, Default)]
pub struct Bytes32(pub RawBytes32);

/// The identifier of a block.
#[derive(Clone, Copy, Debug, PartialEq, Eq, Default)]
pub struct BlockId(pub RawBytes32);

/// The identifier of a transaction.
#[derive(Clone, Copy, Debug, PartialEq, Eq, Default)]
pub struct TransactionId(pub RawBytes32);

/// The identifier of a message.
#[derive(Clone, Copy, Debug, PartialEq, Eq, Default)]
pub struct MessageId(pub RawBytes32);

/// The nonce of a message.
#[derive(Clone, Copy, Debug, PartialEq, Eq, Default)]
pub struct Nonce(pub RawBytes32);

/// The address of an owner.
#[derive(Clone, Copy, Debug, PartialEq, Eq, Default)]
pub struct Address(pub RawBytes32);

/// The identifier of a contract.
#[derive(Clone, Copy, Debug, PartialEq, Eq, Default)]
pub struct ContractId(pub RawBytes32);

/// A byte string of any length.
#[derive(Clone, Debug, PartialEq, Eq, Default)]
pub struct HexString(pub Vec<u8>);

/// A signature in compact form: sixty-four bytes.
#[derive(Clone, Copy, Debug, PartialEq, Eq)]
pub struct Signature(pub [u8; 64]);

/// A public key: sixty-four bytes.
#[derive(Clone, Copy, Debug, PartialEq, Eq)]
pub struct PublicKey(pub [u8; 64]);

/// A timestamp on the TAI64 scale.
#[derive(Clone, Copy, Debug, PartialEq, Eq, Default)]
pub struct Tai64Timestamp(pub Tai64);

/// Whether the text starts with the mark of hex text, `0x`.
pub open spec fn has_hex_prefix(text: Seq<u8>) -> bool {
    text.len() >= 2 && text[0] == 0x30 && text[1] == 0x78
}

/// The bytes that text in the form `0x` and hex digits stands for, or why
/// it stands for none.
pub open spec fn spec_parse_hex(text: Seq<u8>) -> Result<Seq<u8>, bool> {
    if !has_hex_prefix(text) {
        Err(true)
    } else {
        match hex_decoded(text.skip(2)) {
            Some(bytes) => Ok(bytes),
            None => Err(false),
        }
    }
}

impl HexString {
    /// Reads a byte string from text in the form `0x` and hex digits. Text
    /// without the prefix and text that the hex decoder refuses are errors.
    pub fn parse(text: &str) -> (parsed: Result<HexString, ConversionError>)
        ensures
            match spec_parse_hex(text.spec_bytes()) {
                Ok(bytes) => parsed matches Ok(value) && value.0@ == bytes,
                Err(true) => parsed matches Err(ConversionError::HexStringPrefixError),
                Err(false) => parsed matches Err(ConversionError::HexDecodingError(_)),
            },
    {
        let bytes = text.as_bytes();
        if bytes.len() < 2 || bytes[0] != 0x30 || bytes[1] != 0x78 {
            return Err(ConversionError::HexStringPrefixError);
        }
        let digits = vstd::slice::slice_subrange(bytes, 2, bytes.len());
        assert(digits@ =~= text.spec_bytes().skip(2));
        match decode_hex(digits) {
            Ok(value) => Ok(HexString(value)),
            Err(e) => Err(ConversionError::from(e)),
        }
    }
}

impl Bytes32 {
    /// Reads thirty-two bytes from text in the form `0x` and sixty-four hex
    /// digits. Text without the prefix, text that the hex decoder refuses
    /// and text that stands for another number of bytes are errors.
    pub fn parse(text: &str) -> (parsed: Result<Bytes32, ConversionError>)
        ensures
            match spec_parse_hex(text.spec_bytes()) {
                Ok(bytes) => if bytes.len() == 32 {
                    parsed matches Ok(value) && value.0@ == bytes
                } else {
                    parsed matches Err(ConversionError::HexString256LengthError(len)) && len
                        == bytes.len()
                },
                Err(true) => parsed matches Err(ConversionError::HexStringPrefixError),
                Err(false) => parsed matches Err(ConversionError::HexDecodingError(_)),
            },
    {
        let value = match HexString::parse(text) {
            Err(e) => { return Err(e); },
            Ok(value) => value,
        };
        if value.0.len() != 32 {
            return Err(ConversionError::HexString256LengthError(value.0.len()));
        }
        let mut bytes = [0u8; 32];
        let mut i: usize = 0;
        while i < 32
            invariant
                i <= 32,
                value.0@.len() == 32,
                forall|j: int| 0 <= j < i ==> bytes[j] == value.0@[j],
            decreases 32 - i,
        {
            bytes[i] = value.0[i];
            i += 1;
        }
        let parsed = Bytes32(RawBytes32::new(bytes));
        assert(parsed.0@ =~= value.0@);
        Ok(parsed)
    }
}

impl PublicKey {
    /// Sixty-four zero bytes.
    pub open spec fn zero_bytes() -> Seq<u8> {
        Seq::new(64, |i: int| 0u8)
    }

    /// The key whose bytes are all zero.
    pub fn zeroed() -> (key: Self)
        ensures
            key.0@ == Self::zero_bytes(),
    {
        let key = PublicKey([0u8; 64]);
        assert(key.0@ =~= Self::zero_bytes());
        key
    }
}

} // verus!
