//! Decoder of Pump.fun bonding curve accounts.
//!
//! A bonding curve account is 256 bytes. Its real token reserves are the
//! little-endian `u64` at offset 0x18 and its real SOL reserves the one at
//! offset 0x20. Reserves above one quintillion base units are taken for
//! corrupted data.

use crate::dex::DexDecoder;
use crate::error::{outcome, AppError, ErrorView};
use crate::text::{decimal, push_decimal};
use vstd::prelude::*;

verus! {

/// Decoder for Pump.fun bonding curve accounts.
pub struct PumpFunDecoder;

/// The value of the eight bytes of `d` from `off` on, read little-endian.
pub open spec fn le_u64_at(d: Seq<u8>, off: int) -> nat {
    (d[off] + 256 * (d[off + 1] + 256 * (d[off + 2] + 256 * (d[off + 3] + 256 * (d[off + 4] + 256
        * (d[off + 5] + 256 * (d[off + 6] + 256 * d[off + 7]))))))) as nat
}

/// The real token reserves recorded in an account.
pub open spec fn token_reserve(d: Seq<u8>) -> nat {
    le_u64_at(d, 0x18)
}

/// The real SOL reserves recorded in an account.
pub open spec fn sol_reserve(d: Seq<u8>) -> nat {
    le_u64_at(d, 0x20)
}

/// The largest reserve that is taken for a real one.
pub open spec fn max_reserve() -> nat {
    1_000_000_000_000_000_000
}

/// The message for an account of the wrong size.
pub open spec fn size_message(len: nat) -> Seq<char> {
    "Invalid Pump.fun account size: expected 256, got "@ + decimal(len)
}

/// The message for a reserve above the largest real one; `what` names it.
pub open spec fn reserve_message(what: Seq<char>, value: nat) -> Seq<char> {
    what + " reserve value ("@ + decimal(value) + ") exceeds maximum reasonable value ("@ + decimal(
        max_reserve(),
    ) + "). Data may be corrupted."@
}

/// What validating an account gives: its size must be 256 bytes, and both
/// reserves must be at most the largest real reserve.
pub open spec fn validation(d: Seq<u8>) -> Result<(), ErrorView> {
    if d.len() != 256 {
        Err(ErrorView::Decoding(size_message(d.len())))
    } else if token_reserve(d) > max_reserve() {
        Err(ErrorView::Decoding(reserve_message("Token"@, token_reserve(d))))
    } else if sol_reserve(d) > max_reserve() {
        Err(ErrorView::Decoding(reserve_message("SOL"@, sol_reserve(d))))
    } else {
        Ok(())
    }
}

/// What decoding an account gives: the validation's error, or the pair of
/// real token reserves and real SOL reserves.
pub open spec fn decoding(d: Seq<u8>) -> Result<(u64, u64), ErrorView> {
    match validation(d) {
        Err(e) => Err(e),
        Ok(_) => Ok((token_reserve(d) as u64, sol_reserve(d) as u64)),
    }
}

impl PumpFunDecoder {
    /// Size of a Pump.fun bonding curve account.
    pub const ACCOUNT_SIZE: usize = 256;

    /// Offset of the real token reserves.
    pub const REAL_TOKEN_RESERVES_OFFSET: usize = 0x18;

    /// Offset of the real SOL reserves.
    pub const REAL_SOL_RESERVES_OFFSET: usize = 0x20;

    /// Size of a `u64` field.
    pub const U64_SIZE: usize = 8;

    /// The largest reserve that is taken for a real one (one trillion
    /// tokens or SOL in base units); larger values mean corrupted data.
    pub const MAX_RESERVE_VALUE: u64 = 1_000_000_000_000_000_000;

    /// The little-endian `u64` at `offset`, if the data holds eight bytes
    /// from there on.
    pub fn extract_u64(data: &[u8], offset: usize) -> (r: Option<u64>)
        ensures
            r is Some <==> offset + 8 <= data@.len(),
            r matches Some(v) ==> v == le_u64_at(data@, offset as int),
    {
        if offset > data.len() || data.len() - offset < Self::U64_SIZE {
            return None;
        }
        let b0 = data[offset] as u64;
        let b1 = data[offset + 1] as u64;
        let b2 = data[offset + 2] as u64;
        let b3 = data[offset + 3] as u64;
        let b4 = data[offset + 4] as u64;
        let b5 = data[offset + 5] as u64;
        let b6 = data[offset + 6] as u64;
        let b7 = data[offset + 7] as u64;
        let v7 = b7;
        let v6 = v7 * 256 + b6;
        let v5 = v6 * 256 + b5;
        let v4 = v5 * 256 + b4;
        let v3 = v4 * 256 + b3;
        let v2 = v3 * 256 + b2;
        let v1 = v2 * 256 + b1;
        let v0 = v1 * 256 + b0;
        Some(v0)
    }
}

/// The message for a reserve above the largest real one.
fn excessive_reserve(what: &str, value: u64) -> (r: AppError)
    ensures
        r@ == ErrorView::Decoding(reserve_message(what@, value as nat)),
{
    let mut s = String::new();
    s.append(what);
    s.append(" reserve value (");
    push_decimal(&mut s, value);
    s.append(") exceeds maximum reasonable value (");
    push_decimal(&mut s, PumpFunDecoder::MAX_RESERVE_VALUE);
    s.append("). Data may be corrupted.");
    assert(s@ =~= reserve_message(what@, value as nat));
    AppError::DecodingError(s)
}

/// A decoding error with a fixed message.
fn decoding_error(message: &str) -> (r: AppError)
    ensures
        r@ == ErrorView::Decoding(message@),
{
    AppError::DecodingError(crate::text::owned(message))
}

impl DexDecoder for PumpFunDecoder {
    open spec fn validation(&self, data: Seq<u8>) -> Result<(), ErrorView> {
        validation(data)
    }

    open spec fn decoding(&self, data: Seq<u8>) -> Result<(u64, u64), ErrorView> {
        decoding(data)
    }

    fn decode_reserves(&self, account_data: &[u8]) -> (r: Result<(u64, u64), AppError>) {
        match self.validate_account(account_data) {
            Ok(()) => {},
            Err(e) => {
                return Err(e);
            },
        }
        let token_reserve = match Self::extract_u64(
            account_data,
            Self::REAL_TOKEN_RESERVES_OFFSET,
        ) {
            Some(v) => v,
            None => {
                return Err(decoding_error("Failed to extract token reserves at offset 0x18"));
            },
        };
        let sol_reserve = match Self::extract_u64(account_data, Self::REAL_SOL_RESERVES_OFFSET) {
            Some(v) => v,
            None => {
                return Err(decoding_error("Failed to extract SOL reserves at offset 0x20"));
            },
        };
        Ok((token_reserve, sol_reserve))
    }

    fn validate_account(&self, account_data: &[u8]) -> (r: Result<(), AppError>) {
        if account_data.len() != Self::ACCOUNT_SIZE {
            let mut s = String::new();
            s.append("Invalid Pump.fun account size: expected 256, got ");
            push_decimal(&mut s, account_data.len() as u64);
            assert(s@ =~= size_message(account_data@.len()));
            return Err(AppError::DecodingError(s));
        }
        let token_reserve = match Self::extract_u64(
            account_data,
            Self::REAL_TOKEN_RESERVES_OFFSET,
        ) {
            Some(v) => v,
            None => {
                return Err(decoding_error("Account data too small to contain token reserves"));
            },
        };
        let sol_reserve = match Self::extract_u64(account_data, Self::REAL_SOL_RESERVES_OFFSET) {
            Some(v) => v,
            None => {
                return Err(decoding_error("Account data too small to contain SOL reserves"));
            },
        };
        if token_reserve > Self::MAX_RESERVE_VALUE {
            return Err(excessive_reserve("Token", token_reserve));
        }
        if sol_reserve > Self::MAX_RESERVE_VALUE {
            return Err(excessive_reserve("SOL", sol_reserve));
        }
        Ok(())
    }
}

} // verus!

verus! {

/// The eight little-endian bytes of a value.
pub open spec fn le_bytes(v: u64) -> Seq<u8> {
    seq![
        (v % 0x100) as u8,
        ((v / 0x100) % 0x100) as u8,
        ((v / 0x1_0000) % 0x100) as u8,
        ((v / 0x100_0000) % 0x100) as u8,
        ((v / 0x1_0000_0000) % 0x100) as u8,
        ((v / 0x100_0000_0000) % 0x100) as u8,
        ((v / 0x1_0000_0000_0000) % 0x100) as u8,
        ((v / 0x100_0000_0000_0000) % 0x100) as u8,
    ]
}

/// Account data with the given reserves written little-endian at their
/// offsets, and every other byte as in `d`.
pub open spec fn with_reserves(d: Seq<u8>, token: u64, sol: u64) -> Seq<u8> {
    d.take(0x18) + le_bytes(token) + le_bytes(sol) + d.skip(0x28)
}

/// Reading eight little-endian bytes gives back the value they were written
/// from.
pub proof fn lemma_le_roundtrip(v: u64)
    ensures
        le_u64_at(le_bytes(v), 0) == v,
{
    let b = le_bytes(v);
    let c0: u64 = v % 0x100;
    let c1: u64 = (v / 0x100) % 0x100;
    let c2: u64 = (v / 0x1_0000) % 0x100;
    let c3: u64 = (v / 0x100_0000) % 0x100;
    let c4: u64 = (v / 0x1_0000_0000) % 0x100;
    let c5: u64 = (v / 0x100_0000_0000) % 0x100;
    let c6: u64 = (v / 0x1_0000_0000_0000) % 0x100;
    let c7: u64 = (v / 0x100_0000_0000_0000) % 0x100;
    assert(b[0] == c0 && b[1] == c1 && b[2] == c2 && b[3] == c3);
    assert(b[4] == c4 && b[5] == c5 && b[6] == c6 && b[7] == c7);
    assert(v == c0 + 0x100 * (c1 + 0x100 * (c2 + 0x100 * (c3 + 0x100 * (c4 + 0x100 * (c5 + 0x100
        * (c6 + 0x100 * c7))))))) by (bit_vector)
        requires
            c0 == v % 0x100,
            c1 == (v / 0x100) % 0x100,
            c2 == (v / 0x1_0000) % 0x100,
            c3 == (v / 0x100_0000) % 0x100,
            c4 == (v / 0x1_0000_0000) % 0x100,
            c5 == (v / 0x100_0000_0000) % 0x100,
            c6 == (v / 0x1_0000_0000_0000) % 0x100,
            c7 == (v / 0x100_0000_0000_0000) % 0x100,
    ;
}

/// Decoding a 256-byte account whose real token and SOL reserves were
/// written little-endian at offsets 0x18 and 0x20 gives back those reserves,
/// whatever the other bytes hold, when neither exceeds the largest real
/// reserve; otherwise it fails.
pub proof fn lemma_decode_reads_back(d: Seq<u8>, token: u64, sol: u64)
    requires
        d.len() == 256,
    ensures
        with_reserves(d, token, sol).len() == 256,
        token <= max_reserve() && sol <= max_reserve() ==> decoding(with_reserves(d, token, sol))
            == Ok::<(u64, u64), ErrorView>((token, sol)),
        !(token <= max_reserve() && sol <= max_reserve()) ==> decoding(
            with_reserves(d, token, sol),
        ) is Err,
{
    let w = with_reserves(d, token, sol);
    let t = le_bytes(token);
    let s = le_bytes(sol);
    assert(w.len() == 256);
    assert forall|i: int| 0 <= i < 8 implies w[0x18 + i] == t[i] && w[0x20 + i] == s[i] by {}
    lemma_le_roundtrip(token);
    lemma_le_roundtrip(sol);
    assert(token_reserve(w) == le_u64_at(t, 0));
    assert(sol_reserve(w) == le_u64_at(s, 0));
}

/// Validation and decoding of an account read only its size and the sixteen
/// bytes of its two real reserves: accounts that agree on those are
/// validated and decoded alike, whatever their other bytes (such as the
/// discriminator) hold.
pub proof fn lemma_reads_only_reserves(d1: Seq<u8>, d2: Seq<u8>)
    requires
        d1.len() == d2.len(),
        d1.len() == 256 ==> forall|i: int| 0x18 <= i < 0x28 ==> d1[i] == d2[i],
    ensures
        validation(d1) == validation(d2),
        decoding(d1) == decoding(d2),
{
    if d1.len() == 256 {
        assert(token_reserve(d1) == token_reserve(d2));
        assert(sol_reserve(d1) == sol_reserve(d2));
    }
}

/// An account decodes exactly when it validates, and then to its reserves;
/// every reserve it decodes to is at most the largest real reserve.
pub proof fn lemma_decode_iff_valid(d: Seq<u8>)
    ensures
        decoding(d) is Ok <==> validation(d) is Ok,
        validation(d) matches Err(e) ==> decoding(d) == Err::<(u64, u64), ErrorView>(e),
        decoding(d) matches Ok(p) ==> p.0 <= max_reserve() && p.1 <= max_reserve(),
{
}

} // verus!
