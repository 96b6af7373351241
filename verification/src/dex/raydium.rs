//! Decoder of Raydium AMM v4 pool accounts.
//!
//! A Raydium AmmInfo account is 752 bytes and holds the addresses of the
//! vault accounts rather than the reserves themselves, so its reserves cannot
//! be read from the pool account alone; decoding them is not supported yet.

use crate::dex::DexDecoder;
use crate::error::{AppError, ErrorView};
use crate::text::{decimal, push_decimal};
use vstd::prelude::*;

verus! {

/// Decoder for Raydium AMM pool accounts.
pub struct RaydiumDecoder;

/// The message for an account of the wrong size.
pub open spec fn size_message(len: nat) -> Seq<char> {
    "Invalid Raydium account size: expected 752, got "@ + decimal(len)
}

/// The message given when reserves are asked of a Raydium account.
pub open spec fn unsupported_message() -> Seq<char> {
    "Raydium decoder not yet implemented. Use Pump.fun decoder for now."@
}

/// What validating an account gives: its size must be 752 bytes.
pub open spec fn validation(d: Seq<u8>) -> Result<(), ErrorView> {
    if d.len() != 752 {
        Err(ErrorView::Decoding(size_message(d.len())))
    } else {
        Ok(())
    }
}

/// What decoding an account gives: the validation's error, or the error that
/// decoding Raydium reserves is not supported.
pub open spec fn decoding(d: Seq<u8>) -> Result<(u64, u64), ErrorView> {
    match validation(d) {
        Err(e) => Err(e),
        Ok(_) => Err(ErrorView::Decoding(unsupported_message())),
    }
}

impl RaydiumDecoder {
    /// Size of a Raydium AMM v4 pool account.
    pub const ACCOUNT_SIZE: usize = 752;
}

impl DexDecoder for RaydiumDecoder {
    open spec fn validation(&self, data: Seq<u8>) -> Result<(), ErrorView> {
        validation(data)
    }

    open spec fn decoding(&self, data: Seq<u8>) -> Result<(u64, u64), ErrorView> {
        decoding(data)
    }

    fn decode_reserves(&self, account_data: &[u8]) -> (r: Result<(u64, u64), AppError>) {
        match self.validate_account(account_data) {
            Ok(()) => {},
            Err(e) => {
                return Err(e);
            },
        }
        Err(
            AppError::DecodingError(
                crate::text::owned(
                    "Raydium decoder not yet implemented. Use Pump.fun decoder for now.",
                ),
            ),
        )
    }

    fn validate_account(&self, account_data: &[u8]) -> (r: Result<(), AppError>) {
        if account_data.len() != Self::ACCOUNT_SIZE {
            let mut s = String::new();
            s.append("Invalid Raydium account size: expected 752, got ");
            push_decimal(&mut s, account_data.len() as u64);
            assert(s@ =~= size_message(account_data@.len()));
            return Err(AppError::DecodingError(s));
        }
        Ok(())
    }
}

} // verus!
