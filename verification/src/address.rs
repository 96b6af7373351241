//! Account addresses (32-byte public keys) and their base58 text.

use solana_sdk::pubkey::{ParsePubkeyError, Pubkey};
use std::str::FromStr;
use vstd::prelude::*;

verus! {

broadcast use vstd::array::group_array_axioms;

/// A 32-byte account address, such as a pool address or a token mint.
#[derive(Clone, Copy, Debug, PartialEq, Eq, Hash)]
pub struct Address {
    pub bytes: [u8; 32],
}

/// Why a text is not the base58 form of an address.
#[derive(Clone, Copy, Debug, PartialEq, Eq)]
pub enum AddressParseError {
    /// The text does not decode to exactly 32 bytes.
    WrongSize,
    /// The text holds a character outside the base58 alphabet.
    Invalid,
}

/// The base58 text of the bytes of an address, as the Solana SDK writes it.
pub uninterp spec fn base58_text(bytes: Seq<u8>) -> Seq<char>;

/// What the Solana SDK reads from a text that should be the base58 form of
/// an address: its 32 bytes, or why it could not read them.
pub uninterp spec fn base58_address(text: Seq<char>) -> Result<Seq<u8>, AddressParseError>;

/// Whether a text reads as the given bytes of an address.
pub open spec fn reads_back(text: Seq<char>, bytes: Seq<u8>) -> bool {
    base58_address(text) == Ok::<Seq<u8>, AddressParseError>(bytes)
}

/// The text that the Solana SDK shows for a parse error.
pub open spec fn parse_error_text(e: AddressParseError) -> Seq<char> {
    match e {
        AddressParseError::WrongSize => "String is the wrong size"@,
        AddressParseError::Invalid => "Invalid Base58 string"@,
    }
}

/// A parse result with the address taken by its bytes.
pub open spec fn parsed_bytes(r: Result<Address, AddressParseError>) -> Result<Seq<u8>, AddressParseError> {
    match r {
        Ok(a) => Ok(a.bytes@),
        Err(e) => Err(e),
    }
}

impl Address {
    /// Whether every byte of the address is zero (the default address).
    pub open spec fn is_zero(self) -> bool {
        forall|i: int| 0 <= i < 32 ==> self.bytes@[i] == 0u8
    }

    /// The address with the given bytes.
    pub fn new(bytes: [u8; 32]) -> (r: Address)
        ensures
            r.bytes == bytes,
    {
        Address { bytes }
    }

    /// The bytes of the address.
    pub fn to_bytes(&self) -> (r: [u8; 32])
        ensures
            r == self.bytes,
    {
        self.bytes
    }

    /// The all-zero address.
    pub fn zero() -> (r: Address)
        ensures
            r.is_zero(),
    {
        let r = Address { bytes: [0u8; 32] };
        assert(r.is_zero());
        r
    }

    /// Whether this is the all-zero address.
    pub fn is_default(&self) -> (r: bool)
        ensures
            r == self.is_zero(),
    {
        let mut i: usize = 0;
        while i < 32
            invariant
                i <= 32,
                forall|j: int| 0 <= j < i ==> self.bytes@[j] == 0u8,
            decreases 32 - i,
        {
            if self.bytes[i] != 0 {
                return false;
            }
            i = i + 1;
        }
        true
    }

    /// Whether two addresses are the same.
    pub fn same_as(&self, other: &Address) -> (r: bool)
        ensures
            r == (*self == *other),
    {
        let mut i: usize = 0;
        while i < 32
            invariant
                i <= 32,
                forall|j: int| 0 <= j < i ==> self.bytes@[j] == other.bytes@[j],
            decreases 32 - i,
        {
            if self.bytes[i] != other.bytes[i] {
                return false;
            }
            i = i + 1;
        }
        assert(self.bytes@ =~= other.bytes@);
        assert(self.bytes == other.bytes);
        true
    }

    /// The base58 text of the address: 32 to 44 characters, which read back
    /// as the address.
    pub fn to_base58(&self) -> (r: String)
        ensures
            r@ == base58_text(self.bytes@),
            32 <= r@.len() <= 44,
            reads_back(r@, self.bytes@),
    {
        base58_of(&self.bytes)
    }

    /// Reads an address from its base58 text.
    pub fn from_base58(text: &str) -> (r: Result<Address, AddressParseError>)
        ensures
            parsed_bytes(r) == base58_address(text@),
            text@.len() > 44 ==> (r matches Err(AddressParseError::WrongSize)),
    {
        address_from_text(text)
    }
}

impl AddressParseError {
    /// The text shown for this error.
    pub fn message(&self) -> (r: &'static str)
        ensures
            r@ == parse_error_text(*self),
    {
        match self {
            AddressParseError::WrongSize => "String is the wrong size",
            AddressParseError::Invalid => "Invalid Base58 string",
        }
    }
}

impl Default for Address {
    fn default() -> (r: Address)
        ensures
            r.is_zero(),
    {
        Address::zero()
    }
}

/// Writes bytes as base58 text through `Display` of the Solana SDK's
/// `Pubkey`; its result is named `base58_text` of the bytes. As the source
/// shows (`five8::encode_32` into a buffer of 44 bytes, one `1` for each
/// leading zero byte), the text has 32 to 44 characters; and reading it
/// back through `Pubkey::from_str` gives the same bytes, as the Solana SDK's
/// and five8's round-trip tests show.
#[verifier::external_body]
fn base58_of(bytes: &[u8; 32]) -> (r: String)
    ensures
        r@ == base58_text(bytes@),
        r@.len() >= 32,
        r@.len() <= 44,
        reads_back(r@, bytes@),
{
    Pubkey::new_from_array(*bytes).to_string()
}

/// Reads base58 text through `FromStr` of the Solana SDK's `Pubkey`; its
/// result is named `base58_address` of the text. As its source shows, a text
/// longer than 44 bytes (so one of more than 44 characters) is refused as
/// being of the wrong size.
#[verifier::external_body]
fn address_from_text(text: &str) -> (r: Result<Address, AddressParseError>)
    ensures
        parsed_bytes(r) == base58_address(text@),
        text@.len() > 44 ==> (r matches Err(AddressParseError::WrongSize)),
{
    match Pubkey::from_str(text) {
        Ok(key) => Ok(Address { bytes: key.to_bytes() }),
        Err(ParsePubkeyError::WrongSize) => Err(AddressParseError::WrongSize),
        Err(ParsePubkeyError::Invalid) => Err(AddressParseError::Invalid),
    }
}

} // verus!
