//! Configuration of a monitored pool, and a builder for it.

use crate::address::{
    base58_address, base58_text, parse_error_text, reads_back, Address, AddressParseError,
};
use crate::error::{outcome, AppError, ErrorView};
use crate::models::{display_name, lemma_name_roundtrip, lowercase_name, parsed_dex_type, DexType};
use crate::text::{ascii_lowercase, is_ascii_text, lowercase, owned, to_lowercase};
use vstd::prelude::*;

verus! {

broadcast use vstd::array::group_array_axioms;

/// The configuration of one monitored pool: its address, the kind of DEX
/// it belongs to and the mint of its token.
#[derive(Debug, Clone, Copy)]
pub struct PoolConfig {
    pool_address: Address,
    dex_type: DexType,
    token_mint: Address,
}

/// The mathematical value of a [`PoolConfig`].
pub struct PoolConfigView {
    pub pool_address: Address,
    pub dex_type: DexType,
    pub token_mint: Address,
}

impl View for PoolConfig {
    type V = PoolConfigView;

    closed spec fn view(&self) -> PoolConfigView {
        PoolConfigView {
            pool_address: self.pool_address,
            dex_type: self.dex_type,
            token_mint: self.token_mint,
        }
    }
}

/// What checking a configuration gives: neither address may be the all-zero
/// (default) address.
pub open spec fn config_check(pool_address: Address, token_mint: Address) -> Result<(), ErrorView> {
    if pool_address.is_zero() {
        Err(ErrorView::Config("Pool address cannot be default/zero pubkey"@))
    } else if token_mint.is_zero() {
        Err(ErrorView::Config("Token mint cannot be default/zero pubkey"@))
    } else {
        Ok(())
    }
}

/// A configuration result taken by its view.
pub open spec fn config_outcome(r: Result<PoolConfig, AppError>) -> Result<PoolConfigView, ErrorView> {
    match r {
        Ok(c) => Ok(c@),
        Err(e) => Err(e@),
    }
}

/// What creating a configuration gives: the check's error, or the
/// configuration of the three values.
pub open spec fn new_config(pool_address: Address, dex_type: DexType, token_mint: Address) -> Result<
    PoolConfigView,
    ErrorView,
> {
    match config_check(pool_address, token_mint) {
        Err(e) => Err(e),
        Ok(_) => Ok(PoolConfigView { pool_address, dex_type, token_mint }),
    }
}

/// The name of the CSV file of a pool: the lowercase name of its DEX type
/// (`pumpfun` or `raydium`), an underscore, the first eight characters of
/// the base58 text of its address, and `.csv`.
pub open spec fn csv_filename(dex_type: DexType, address_text: Seq<char>) -> Seq<char> {
    lowercase_name(dex_type) + "_"@ + address_text.take(8) + ".csv"@
}

/// A configuration error with a fixed message.
fn config_error(message: &str) -> (r: AppError)
    ensures
        r@ == ErrorView::Config(message@),
{
    AppError::ConfigError(owned(message))
}

impl PoolConfig {
    /// A checked configuration of a pool.
    pub fn new(pool_address: Address, dex_type: DexType, token_mint: Address) -> (r: Result<
        PoolConfig,
        AppError,
    >)
        ensures
            config_outcome(r) == new_config(pool_address, dex_type, token_mint),
    {
        let config = PoolConfig { pool_address, dex_type, token_mint };
        match config.validate() {
            Ok(()) => Ok(config),
            Err(e) => Err(e),
        }
    }

    /// Checks that neither address is the all-zero address.
    pub fn validate(&self) -> (r: Result<(), AppError>)
        ensures
            outcome(r) == config_check(self@.pool_address, self@.token_mint),
    {
        if self.pool_address.is_default() {
            return Err(config_error("Pool address cannot be default/zero pubkey"));
        }
        if self.token_mint.is_default() {
            return Err(config_error("Token mint cannot be default/zero pubkey"));
        }
        Ok(())
    }

    /// The name of the CSV file where the snapshots of this pool go.
    pub fn get_csv_filename(&self) -> (r: String)
        ensures
            r@ == csv_filename(self@.dex_type, base58_text(self@.pool_address.bytes@)),
    {
        let dex_name = self.dex_type.to_string();
        proof {
            lemma_name_roundtrip(self@.dex_type);
        }
        let mut s = to_lowercase(dex_name.as_str());
        s.append("_");
        let address_text = self.pool_address.to_base58();
        s.append(address_text.as_str().substring_char(0, 8));
        s.append(".csv");
        assert(s@ =~= csv_filename(self@.dex_type, base58_text(self@.pool_address.bytes@)));
        s
    }

    /// The address of the pool.
    pub fn pool_address(&self) -> (r: &Address)
        ensures
            *r == self@.pool_address,
    {
        &self.pool_address
    }

    /// The kind of DEX of the pool.
    pub fn dex_type(&self) -> (r: DexType)
        ensures
            r == self@.dex_type,
    {
        self.dex_type
    }

    /// The mint of the pool's token.
    pub fn token_mint(&self) -> (r: &Address)
        ensures
            *r == self@.token_mint,
    {
        &self.token_mint
    }

    /// A builder with no value set.
    pub fn builder() -> (r: PoolConfigBuilder)
        ensures
            r@ == (BuilderView { pool_address: None, dex_type: None, token_mint: None }),
    {
        PoolConfigBuilder::default()
    }
}

/// A builder of a [`PoolConfig`], which gathers its three values one by one.
pub struct PoolConfigBuilder {
    pool_address: Option<Address>,
    dex_type: Option<DexType>,
    token_mint: Option<Address>,
}

/// The mathematical value of a [`PoolConfigBuilder`]: the values set so far.
pub struct BuilderView {
    pub pool_address: Option<Address>,
    pub dex_type: Option<DexType>,
    pub token_mint: Option<Address>,
}

impl View for PoolConfigBuilder {
    type V = BuilderView;

    closed spec fn view(&self) -> BuilderView {
        BuilderView {
            pool_address: self.pool_address,
            dex_type: self.dex_type,
            token_mint: self.token_mint,
        }
    }
}

/// What building gives from the values set: the error for the first missing
/// value, or what creating the configuration gives.
pub open spec fn built_config(b: BuilderView) -> Result<PoolConfigView, ErrorView> {
    match b.pool_address {
        None => Err(ErrorView::Config("Pool address is required"@)),
        Some(pool_address) => match b.dex_type {
            None => Err(ErrorView::Config("DEX type is required"@)),
            Some(dex_type) => match b.token_mint {
                None => Err(ErrorView::Config("Token mint is required"@)),
                Some(token_mint) => new_config(pool_address, dex_type, token_mint),
            },
        },
    }
}

/// A builder's value after its kind of DEX was read from a name: the kind
/// set, or the reading's error.
pub open spec fn with_parsed_type(b: BuilderView, parsed: Result<DexType, ErrorView>) -> Result<
    BuilderView,
    ErrorView,
> {
    match parsed {
        Ok(t) => Ok(BuilderView { dex_type: Some(t), ..b }),
        Err(e) => Err(e),
    }
}

/// A builder result taken by its view.
pub open spec fn builder_outcome(r: Result<PoolConfigBuilder, AppError>) -> Result<
    BuilderView,
    ErrorView,
> {
    match r {
        Ok(b) => Ok(b@),
        Err(e) => Err(e@),
    }
}

/// What reading an address for a builder gives: the builder with the address
/// set by `set`, or a configuration error whose message starts with `what`
/// and ends with the parse error's text.
pub open spec fn address_read(
    text: Seq<char>,
    what: Seq<char>,
    set: spec_fn(Address) -> BuilderView,
) -> Result<BuilderView, ErrorView> {
    match base58_address(text) {
        Ok(bytes) => Ok(set(Address { bytes: array_of(bytes) })),
        Err(e) => Err(ErrorView::Config(what + parse_error_text(e))),
    }
}

/// The 32-byte array with the given bytes.
pub open spec fn array_of(bytes: Seq<u8>) -> [u8; 32] {
    choose|a: [u8; 32]| a@ == bytes
}

/// The array with the bytes of an array is that array.
pub proof fn lemma_array_of(a: [u8; 32])
    ensures
        array_of(a@) == a,
{
    assert(exists|x: [u8; 32]| #[trigger] x@ == a@) by {
        assert(a@ == a@);
    }
    assert(array_of(a@)@ =~= a@);
}

/// A text that reads as the bytes of an address (as the base58 text that
/// `Address::to_base58` gives does) sets that very address: a builder's text
/// setters accept an address's own text and give back that address.
pub proof fn lemma_address_read_of_text(
    text: Seq<char>,
    a: Address,
    what: Seq<char>,
    set: spec_fn(Address) -> BuilderView,
)
    requires
        reads_back(text, a.bytes@),
    ensures
        address_read(text, what, set) == Ok::<BuilderView, ErrorView>(set(a)),
{
    lemma_array_of(a.bytes);
}

impl Default for PoolConfigBuilder {
    fn default() -> (r: PoolConfigBuilder)
        ensures
            r@ == (BuilderView { pool_address: None, dex_type: None, token_mint: None }),
    {
        PoolConfigBuilder { pool_address: None, dex_type: None, token_mint: None }
    }
}

/// The message for an address that could not be read.
fn invalid_address(what: &str, e: &AddressParseError) -> (r: AppError)
    ensures
        r@ == ErrorView::Config(what@ + parse_error_text(*e)),
{
    let mut s = String::new();
    s.append(what);
    s.append(e.message());
    assert(s@ =~= what@ + parse_error_text(*e));
    AppError::ConfigError(s)
}


impl PoolConfigBuilder {
    /// Sets the pool address from its base58 text.
    pub fn pool_address(self, address: &str) -> (r: Result<PoolConfigBuilder, AppError>)
        ensures
            builder_outcome(r) == address_read(
                address@,
                "Invalid pool address: "@,
                |a: Address|
                    BuilderView {
                        pool_address: Some(a),
                        dex_type: self@.dex_type,
                        token_mint: self@.token_mint,
                    },
            ),
    {
        match Address::from_base58(address) {
            Ok(a) => {
                proof {
                    lemma_array_of(a.bytes);
                }
                let r = self.pool_address_pubkey(a);
                Ok(r)
            },
            Err(e) => Err(invalid_address("Invalid pool address: ", &e)),
        }
    }

    /// Sets the pool address.
    pub fn pool_address_pubkey(self, pubkey: Address) -> (r: PoolConfigBuilder)
        ensures
            r@ == (BuilderView {
                pool_address: Some(pubkey),
                dex_type: self@.dex_type,
                token_mint: self@.token_mint,
            }),
    {
        PoolConfigBuilder { pool_address: Some(pubkey), ..self }
    }

    /// Sets the kind of DEX.
    pub fn dex_type(self, dex_type: DexType) -> (r: PoolConfigBuilder)
        ensures
            r@ == (BuilderView {
                pool_address: self@.pool_address,
                dex_type: Some(dex_type),
                token_mint: self@.token_mint,
            }),
    {
        PoolConfigBuilder { dex_type: Some(dex_type), ..self }
    }

    /// Sets the kind of DEX from its name, whatever the case of its letters.
    pub fn dex_type_str(self, dex_type: &str) -> (r: Result<PoolConfigBuilder, AppError>)
        ensures
            builder_outcome(r) == with_parsed_type(
                self@,
                parsed_dex_type(lowercase(dex_type@), dex_type@),
            ),
            is_ascii_text(dex_type@) ==> builder_outcome(r) == with_parsed_type(
                self@,
                parsed_dex_type(ascii_lowercase(dex_type@), dex_type@),
            ),
    {
        match DexType::parse_name(dex_type) {
            Ok(t) => Ok(self.dex_type(t)),
            Err(e) => Err(e),
        }
    }

    /// Sets the token mint from its base58 text.
    pub fn token_mint(self, mint: &str) -> (r: Result<PoolConfigBuilder, AppError>)
        ensures
            builder_outcome(r) == address_read(
                mint@,
                "Invalid token mint: "@,
                |a: Address|
                    BuilderView {
                        pool_address: self@.pool_address,
                        dex_type: self@.dex_type,
                        token_mint: Some(a),
                    },
            ),
    {
        match Address::from_base58(mint) {
            Ok(a) => {
                proof {
                    lemma_array_of(a.bytes);
                }
                let r = self.token_mint_pubkey(a);
                Ok(r)
            },
            Err(e) => Err(invalid_address("Invalid token mint: ", &e)),
        }
    }

    /// Sets the token mint.
    pub fn token_mint_pubkey(self, pubkey: Address) -> (r: PoolConfigBuilder)
        ensures
            r@ == (BuilderView {
                pool_address: self@.pool_address,
                dex_type: self@.dex_type,
                token_mint: Some(pubkey),
            }),
    {
        PoolConfigBuilder { token_mint: Some(pubkey), ..self }
    }

    /// Builds the configuration from the values set.
    pub fn build(self) -> (r: Result<PoolConfig, AppError>)
        ensures
            config_outcome(r) == built_config(self@),
    {
        let pool_address = match self.pool_address {
            Some(a) => a,
            None => {
                return Err(config_error("Pool address is required"));
            },
        };
        let dex_type = match self.dex_type {
            Some(t) => t,
            None => {
                return Err(config_error("DEX type is required"));
            },
        };
        let token_mint = match self.token_mint {
            Some(a) => a,
            None => {
                return Err(config_error("Token mint is required"));
            },
        };
        PoolConfig::new(pool_address, dex_type, token_mint)
    }
}

} // verus!

verus! {

/// Building from a builder with all three values set is creating the
/// configuration from them; every configuration so made passes its check.
pub proof fn lemma_build_is_new(pool_address: Address, dex_type: DexType, token_mint: Address)
    ensures
        built_config(
            BuilderView {
                pool_address: Some(pool_address),
                dex_type: Some(dex_type),
                token_mint: Some(token_mint),
            },
        ) == new_config(pool_address, dex_type, token_mint),
        new_config(pool_address, dex_type, token_mint) is Ok <==> config_check(
            pool_address,
            token_mint,
        ) is Ok,
        new_config(pool_address, dex_type, token_mint) matches Ok(v) ==> config_check(
            v.pool_address,
            v.token_mint,
        ) is Ok,
{
}

/// A builder missing a value refuses to build, naming the first missing
/// value in the order pool address, DEX type, token mint.
pub proof fn lemma_build_needs_all(b: BuilderView)
    ensures
        b.pool_address is None ==> built_config(b) == Err::<PoolConfigView, ErrorView>(
            ErrorView::Config("Pool address is required"@),
        ),
        b.pool_address is Some && b.dex_type is None ==> built_config(b) == Err::<
            PoolConfigView,
            ErrorView,
        >(ErrorView::Config("DEX type is required"@)),
        b.pool_address is Some && b.dex_type is Some && b.token_mint is None ==> built_config(b)
            == Err::<PoolConfigView, ErrorView>(ErrorView::Config("Token mint is required"@)),
{
}

/// A configuration is refused only for an all-zero address: it passes its
/// check exactly when each of its two addresses has some non-zero byte, and
/// then creating it gives the configuration of exactly the values given.
pub proof fn lemma_nonzero_addresses_pass(pool_address: Address, dex_type: DexType, token_mint: Address)
    ensures
        config_check(pool_address, token_mint) is Ok <==> {
            &&& exists|i: int| 0 <= i < 32 && #[trigger] pool_address.bytes@[i] != 0
            &&& exists|j: int| 0 <= j < 32 && #[trigger] token_mint.bytes@[j] != 0
        },
        (exists|i: int| 0 <= i < 32 && #[trigger] pool_address.bytes@[i] != 0) && (exists|j: int|
            0 <= j < 32 && #[trigger] token_mint.bytes@[j] != 0) ==> new_config(
            pool_address,
            dex_type,
            token_mint,
        ) == Ok::<PoolConfigView, ErrorView>(
            PoolConfigView { pool_address, dex_type, token_mint },
        ),
{
}

/// Setting the kind of DEX by name sets the kind that the name reads as and
/// leaves both addresses as they were, and a name that reads as no kind
/// gives its error and sets nothing. Every ASCII spelling of a kind's
/// lowercase name, whatever the case of its letters (such as `raydium` or
/// `Raydium`), sets that kind.
pub proof fn lemma_dex_type_by_name(b: BuilderView, name: Seq<char>, t: DexType, e: ErrorView)
    ensures
        with_parsed_type(b, Ok(t)) == Ok::<BuilderView, ErrorView>(
            BuilderView { pool_address: b.pool_address, dex_type: Some(t), token_mint: b.token_mint },
        ),
        with_parsed_type(b, Err(e)) == Err::<BuilderView, ErrorView>(e),
        is_ascii_text(name) && ascii_lowercase(name) == lowercase_name(t) ==> with_parsed_type(
            b,
            parsed_dex_type(ascii_lowercase(name), name),
        ) == Ok::<BuilderView, ErrorView>(
            BuilderView { pool_address: b.pool_address, dex_type: Some(t), token_mint: b.token_mint },
        ),
{
    lemma_name_roundtrip(t);
}

} // verus!
