//! The kinds of DEX, and the checks and text of pool snapshots.

use crate::error::{outcome, AppError, ErrorView};
use crate::text::{ascii_lowercase, decimal, is_ascii_text, lowercase, owned, push_decimal,
    same_text, signed_decimal, signed_decimal_string, decimal_string, to_lowercase};
use vstd::prelude::*;

verus! {

/// A kind of DEX whose pools can be monitored.
#[derive(Debug, Clone, Copy, PartialEq, Eq, Structural, Hash)]
pub enum DexType {
    PumpFun,
    Raydium,
}

/// The name under which a DEX type is shown.
pub open spec fn display_name(t: DexType) -> Seq<char> {
    match t {
        DexType::PumpFun => "PumpFun"@,
        DexType::Raydium => "Raydium"@,
    }
}

/// The lowercase form of the name under which a DEX type is shown.
pub open spec fn lowercase_name(t: DexType) -> Seq<char> {
    match t {
        DexType::PumpFun => "pumpfun"@,
        DexType::Raydium => "raydium"@,
    }
}

/// The DEX type that a lowercase name stands for, if any: `pumpfun` and
/// `pump_fun` for Pump.fun, `raydium` for Raydium.
pub open spec fn dex_type_of_lowercase(name: Seq<char>) -> Option<DexType> {
    if name == "pumpfun"@ || name == "pump_fun"@ {
        Some(DexType::PumpFun)
    } else if name == "raydium"@ {
        Some(DexType::Raydium)
    } else {
        None
    }
}

/// The message for a name that is no DEX type.
pub open spec fn unknown_type_message(name: Seq<char>) -> Seq<char> {
    "Unknown DEX type: "@ + name
}

/// What reading a DEX type from a name gives, where `lower` is the lowercase
/// form of the name `name`.
pub open spec fn parsed_dex_type(lower: Seq<char>, name: Seq<char>) -> Result<
    DexType,
    ErrorView,
> {
    match dex_type_of_lowercase(lower) {
        Some(t) => Ok(t),
        None => Err(ErrorView::Config(unknown_type_message(name))),
    }
}

/// The size in bytes of a pool account of a DEX type.
pub open spec fn account_size(t: DexType) -> nat {
    match t {
        DexType::PumpFun => 256,
        DexType::Raydium => 752,
    }
}

impl DexType {
    /// The size in bytes of a pool account of this DEX type.
    pub fn get_account_size(&self) -> (r: usize)
        ensures
            r == account_size(*self),
    {
        match self {
            DexType::PumpFun => 256,
            DexType::Raydium => 752,
        }
    }

    /// The name under which this DEX type is shown.
    pub fn to_string(&self) -> (r: String)
        ensures
            r@ == display_name(*self),
    {
        match self {
            DexType::PumpFun => owned("PumpFun"),
            DexType::Raydium => owned("Raydium"),
        }
    }

    /// Reads a DEX type from its name, given the lowercase form `lower` of
    /// the name `name`.
    pub fn from_lowercase_name(lower: &str, name: &str) -> (r: Result<DexType, AppError>)
        ensures
            outcome(r) == parsed_dex_type(lower@, name@),
    {
        proof {
            reveal_strlit("pumpfun");
            reveal_strlit("pump_fun");
            reveal_strlit("raydium");
        }
        if same_text(lower, "pumpfun") || same_text(lower, "pump_fun") {
            Ok(DexType::PumpFun)
        } else if same_text(lower, "raydium") {
            Ok(DexType::Raydium)
        } else {
            let mut s = String::new();
            s.append("Unknown DEX type: ");
            s.append(name);
            assert(s@ =~= unknown_type_message(name@));
            Err(AppError::ConfigError(s))
        }
    }

    /// Reads a DEX type from its name, whatever the case of its letters.
    pub fn parse_name(name: &str) -> (r: Result<DexType, AppError>)
        ensures
            outcome(r) == parsed_dex_type(lowercase(name@), name@),
            is_ascii_text(name@) ==> outcome(r) == parsed_dex_type(ascii_lowercase(name@), name@),
    {
        let lower = to_lowercase(name);
        Self::from_lowercase_name(lower.as_str(), name)
    }
}

impl std::str::FromStr for DexType {
    type Err = AppError;

    fn from_str(s: &str) -> (r: Result<DexType, AppError>)
        ensures
            outcome(r) == parsed_dex_type(lowercase(s@), s@),
            is_ascii_text(s@) ==> outcome(r) == parsed_dex_type(ascii_lowercase(s@), s@),
    {
        DexType::parse_name(s)
    }
}

} // verus!

verus! {

/// What checking the reserves of a snapshot gives: neither may be zero.
pub open spec fn reserves_check(reserve_base: u64, reserve_quote: u64) -> Result<(), ErrorView> {
    if reserve_base == 0 || reserve_quote == 0 {
        Err(ErrorView::Config("Reserves cannot be zero"@))
    } else {
        Ok(())
    }
}

/// Checks the reserves of a pool snapshot: neither may be zero.
pub fn validate_snapshot_reserves(reserve_base: u64, reserve_quote: u64) -> (r: Result<(), AppError>)
    ensures
        outcome(r) == reserves_check(reserve_base, reserve_quote),
{
    if reserve_base == 0 || reserve_quote == 0 {
        return Err(AppError::ConfigError(owned("Reserves cannot be zero")));
    }
    Ok(())
}

/// The CSV fields of a pool snapshot before its price: pool address, token
/// mint, DEX type, base reserve, quote reserve and timestamp.
pub fn snapshot_csv_fields(
    pool_address: &str,
    token_mint: &str,
    dex_type: DexType,
    reserve_base: u64,
    reserve_quote: u64,
    timestamp: i64,
) -> (r: Vec<String>)
    ensures
        r@.len() == 6,
        r@[0]@ == pool_address@,
        r@[1]@ == token_mint@,
        r@[2]@ == display_name(dex_type),
        r@[3]@ == decimal(reserve_base as nat),
        r@[4]@ == decimal(reserve_quote as nat),
        r@[5]@ == signed_decimal(timestamp as int),
{
    let mut row: Vec<String> = Vec::new();
    row.push(owned(pool_address));
    row.push(owned(token_mint));
    row.push(dex_type.to_string());
    row.push(decimal_string(reserve_base));
    row.push(decimal_string(reserve_quote));
    row.push(signed_decimal_string(timestamp));
    row
}

} // verus!

verus! {

/// The name under which a DEX type is shown is ASCII, its lowercase form is
/// the type's lowercase name, and reading a DEX type back from the shown
/// name gives the type again.
pub proof fn lemma_name_roundtrip(t: DexType)
    ensures
        is_ascii_text(display_name(t)),
        ascii_lowercase(display_name(t)) == lowercase_name(t),
        parsed_dex_type(ascii_lowercase(display_name(t)), display_name(t)) == Ok::<
            DexType,
            ErrorView,
        >(t),
{
    reveal_strlit("PumpFun");
    reveal_strlit("Raydium");
    reveal_strlit("pumpfun");
    reveal_strlit("pump_fun");
    reveal_strlit("raydium");
    assert(ascii_lowercase("PumpFun"@) =~= "pumpfun"@);
    assert(ascii_lowercase("Raydium"@) =~= "raydium"@);
    assert("raydium"@ != "pumpfun"@) by {
        assert("raydium"@[0] != "pumpfun"@[0]);
    }
    assert("raydium"@ != "pump_fun"@) by {
        assert("raydium"@.len() != "pump_fun"@.len());
    }
}

/// A snapshot's reserves pass their check exactly when neither is zero,
/// whatever their sizes and whichever is larger; reserves that fail give
/// the one error for zero reserves.
pub proof fn lemma_reserves_check_nonzero(reserve_base: u64, reserve_quote: u64)
    ensures
        reserves_check(reserve_base, reserve_quote) is Ok <==> (reserve_base != 0 && reserve_quote
            != 0),
        reserves_check(reserve_base, reserve_quote) is Err ==> reserves_check(
            reserve_base,
            reserve_quote,
        ) == Err::<(), ErrorView>(ErrorView::Config("Reserves cannot be zero"@)),
{
}

} // verus!
