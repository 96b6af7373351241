//! Decoding of DEX pool accounts, and a registry of decoders for many pools.

pub mod pumpfun;
pub mod raydium;

use crate::error::{outcome, AppError, ErrorView};
use vstd::prelude::*;

verus! {

/// Decoding of the account data of one kind of DEX pool.
///
/// A decoder reads the reserves of a pool from its raw account data, as the
/// pair (base reserve, quote reserve), for most DEXs (token reserve, SOL
/// reserve). `validate_account` checks the data before decoding, and
/// `decode_reserves` fails whenever validation fails.
pub trait DexDecoder: Send + Sync {
    /// What validating the given account data gives.
    spec fn validation(&self, data: Seq<u8>) -> Result<(), ErrorView>;

    /// What decoding the given account data gives.
    spec fn decoding(&self, data: Seq<u8>) -> Result<(u64, u64), ErrorView>;

    /// Decodes the reserves from the account data.
    fn decode_reserves(&self, account_data: &[u8]) -> (r: Result<(u64, u64), AppError>)
        ensures
            outcome(r) == self.decoding(account_data@),
    ;

    /// Validates the account data.
    fn validate_account(&self, account_data: &[u8]) -> (r: Result<(), AppError>)
        ensures
            outcome(r) == self.validation(account_data@),
    ;
}

} // verus!

use crate::address::{base58_text, Address};
use crate::config::PoolConfig;
use crate::models::DexType;
use crate::table::{distinct_keys, map_of, AddressMap};
use pumpfun::PumpFunDecoder;
use raydium::RaydiumDecoder;

verus! {

/// What validating account data gives for a DEX type.
pub open spec fn validation_for(t: DexType, data: Seq<u8>) -> Result<(), ErrorView> {
    match t {
        DexType::PumpFun => pumpfun::validation(data),
        DexType::Raydium => raydium::validation(data),
    }
}

/// What decoding account data gives for a DEX type.
pub open spec fn decoding_for(t: DexType, data: Seq<u8>) -> Result<(u64, u64), ErrorView> {
    match t {
        DexType::PumpFun => pumpfun::decoding(data),
        DexType::Raydium => raydium::decoding(data),
    }
}

/// A decoder for one of the supported kinds of DEX.
pub enum Decoder {
    PumpFun(PumpFunDecoder),
    Raydium(RaydiumDecoder),
}

impl Decoder {
    /// The kind of DEX this decoder reads.
    pub open spec fn dex_type(&self) -> DexType {
        match self {
            Decoder::PumpFun(_) => DexType::PumpFun,
            Decoder::Raydium(_) => DexType::Raydium,
        }
    }
}

impl DexDecoder for Decoder {
    open spec fn validation(&self, data: Seq<u8>) -> Result<(), ErrorView> {
        validation_for(self.dex_type(), data)
    }

    open spec fn decoding(&self, data: Seq<u8>) -> Result<(u64, u64), ErrorView> {
        decoding_for(self.dex_type(), data)
    }

    fn decode_reserves(&self, account_data: &[u8]) -> (r: Result<(u64, u64), AppError>) {
        match self {
            Decoder::PumpFun(d) => d.decode_reserves(account_data),
            Decoder::Raydium(d) => d.decode_reserves(account_data),
        }
    }

    fn validate_account(&self, account_data: &[u8]) -> (r: Result<(), AppError>) {
        match self {
            Decoder::PumpFun(d) => d.validate_account(account_data),
            Decoder::Raydium(d) => d.validate_account(account_data),
        }
    }
}

/// The decoder for a kind of DEX.
pub fn create_decoder(dex_type: DexType) -> (r: Decoder)
    ensures
        r.dex_type() == dex_type,
{
    match dex_type {
        DexType::PumpFun => Decoder::PumpFun(PumpFunDecoder),
        DexType::Raydium => Decoder::Raydium(RaydiumDecoder),
    }
}

/// Counts of the successful and failed decodings of one pool, with the
/// times (Unix seconds) of the first and last success and the last error.
#[derive(Debug, Clone, Copy)]
pub struct DecoderStats {
    pub success_count: u64,
    pub error_count: u64,
    pub first_success_time: Option<u64>,
    pub last_success_time: Option<u64>,
    pub last_error_time: Option<u64>,
}

/// Statistics with nothing recorded.
pub open spec fn empty_stats() -> DecoderStats {
    DecoderStats {
        success_count: 0,
        error_count: 0,
        first_success_time: None,
        last_success_time: None,
        last_error_time: None,
    }
}

/// The statistics after a success at time `now`: one more success, `now` as
/// the last success, and as the first one if there was none.
pub open spec fn after_success(s: DecoderStats, now: u64) -> DecoderStats {
    DecoderStats {
        success_count: (s.success_count + 1) as u64,
        first_success_time: if s.first_success_time is None {
            Some(now)
        } else {
            s.first_success_time
        },
        last_success_time: Some(now),
        ..s
    }
}

/// The statistics after an error at time `now`: one more error, `now` as the
/// last error.
pub open spec fn after_error(s: DecoderStats, now: u64) -> DecoderStats {
    DecoderStats { error_count: (s.error_count + 1) as u64, last_error_time: Some(now), ..s }
}

/// Whether the count that an outcome raises has room: the success count
/// after a success, the error count after an error.
pub open spec fn room_for(s: DecoderStats, succeeded: bool) -> bool {
    if succeeded {
        s.success_count < u64::MAX
    } else {
        s.error_count < u64::MAX
    }
}

#[verifier::external_type_specification]
#[verifier::external_body]
pub struct ExSystemTime(std::time::SystemTime);

#[verifier::external_type_specification]
#[verifier::external_body]
pub struct ExSystemTimeError(std::time::SystemTimeError);

/// A reading of the system clock, through `SystemTime::now`. Nothing is
/// stated of it: it depends on the clock.
#[verifier::external_body]
fn system_now() -> std::time::SystemTime {
    std::time::SystemTime::now()
}

/// The time elapsed from the Unix epoch to `t`, or an error when `t` is
/// before the epoch, through `SystemTime::duration_since`. Nothing is stated
/// of it: it depends on the clock reading, which is opaque here.
#[verifier::external_body]
fn since_unix_epoch(t: &std::time::SystemTime) -> std::result::Result<
    std::time::Duration,
    std::time::SystemTimeError,
> {
    t.duration_since(std::time::UNIX_EPOCH)
}

/// The whole seconds of a duration, through `Duration::as_secs`. Nothing is
/// stated of it: a duration is opaque here.
#[verifier::external_body]
fn whole_seconds(d: &std::time::Duration) -> u64 {
    d.as_secs()
}

/// The current Unix time in seconds, by the system clock (0 if the clock is
/// before the Unix epoch). Nothing is stated of the value: it depends on the
/// clock.
fn current_timestamp() -> u64 {
    let now = system_now();
    match since_unix_epoch(&now) {
        Ok(d) => whole_seconds(&d),
        Err(_) => 0,
    }
}

impl Default for DecoderStats {
    fn default() -> (r: DecoderStats)
        ensures
            r == empty_stats(),
    {
        DecoderStats {
            success_count: 0,
            error_count: 0,
            first_success_time: None,
            last_success_time: None,
            last_error_time: None,
        }
    }
}

impl DecoderStats {
    /// Statistics with nothing recorded.
    pub fn new() -> (r: DecoderStats)
        ensures
            r == empty_stats(),
    {
        DecoderStats::default()
    }

    /// Records a successful decoding at time `now`.
    pub fn record_success_at(&mut self, now: u64)
        requires
            old(self).success_count < u64::MAX,
        ensures
            *final(self) == after_success(*old(self), now),
    {
        self.success_count = self.success_count + 1;
        if self.first_success_time.is_none() {
            self.first_success_time = Some(now);
        }
        self.last_success_time = Some(now);
    }

    /// Records a successful decoding at the current time.
    pub fn record_success(&mut self)
        requires
            old(self).success_count < u64::MAX,
        ensures
            final(self).last_success_time is Some,
            *final(self) == after_success(*old(self), final(self).last_success_time->0),
    {
        let now = current_timestamp();
        self.record_success_at(now);
    }

    /// Records a failed decoding at time `now`.
    pub fn record_error_at(&mut self, now: u64)
        requires
            old(self).error_count < u64::MAX,
        ensures
            *final(self) == after_error(*old(self), now),
    {
        self.error_count = self.error_count + 1;
        self.last_error_time = Some(now);
    }

    /// Records a failed decoding at the current time.
    pub fn record_error(&mut self)
        requires
            old(self).error_count < u64::MAX,
        ensures
            final(self).last_error_time is Some,
            *final(self) == after_error(*old(self), final(self).last_error_time->0),
    {
        let now = current_timestamp();
        self.record_error_at(now);
    }

    /// The number of decoding attempts.
    pub fn total_attempts(&self) -> (r: u64)
        requires
            self.success_count + self.error_count <= u64::MAX,
        ensures
            r == self.success_count + self.error_count,
    {
        self.success_count + self.error_count
    }
}

} // verus!

verus! {

/// The message for a pool without a decoder.
pub open spec fn no_decoder_message(pool: Address) -> Seq<char> {
    "No decoder registered for pool: "@ + base58_text(pool.bytes@)
}

/// The message for a pool whose DEX type is not registered.
pub open spec fn no_pool_type_message(pool: Address) -> Seq<char> {
    "Pool type not registered for: "@ + base58_text(pool.bytes@)
        + ". Call register_pool_type first."@
}

/// The statistics of a pool in a map, or empty statistics.
pub open spec fn stats_or_empty(m: Map<Address, DecoderStats>, pool: Address) -> DecoderStats {
    if m.contains_key(pool) {
        m[pool]
    } else {
        empty_stats()
    }
}

/// The statistics after a decoding at time `now` that succeeded or not.
pub open spec fn recorded(s: DecoderStats, succeeded: bool, now: u64) -> DecoderStats {
    if succeeded {
        after_success(s, now)
    } else {
        after_error(s, now)
    }
}

/// The time of the last recorded success, or of the last recorded error.
pub open spec fn time_recorded(s: DecoderStats, succeeded: bool) -> u64 {
    if succeeded {
        s.last_success_time->0
    } else {
        s.last_error_time->0
    }
}

/// The least number of seconds between two statistics reports that are not
/// forced.
pub open spec fn stats_log_interval() -> int {
    300
}

/// Whether statistics are to be reported at time `now`, when the last report
/// was at time `last`: when forced, or when at least the interval has passed
/// (a clock that went back counts as such).
pub open spec fn stats_log_due(force: bool, now: u64, last: u64) -> bool {
    force || now < last || now - last >= stats_log_interval()
}

/// A registry of the decoders of many pools.
///
/// A pool gets a decoder when it is registered, or on first use when only its
/// DEX type was registered. Each decoding through the registry is counted in
/// the statistics of its pool.
pub struct DecoderRegistry {
    decoders: AddressMap<Decoder>,
    pool_types: AddressMap<DexType>,
    stats: AddressMap<DecoderStats>,
    last_stats_log: u64,
}

/// The error for a pool without a decoder.
fn no_decoder_error(pool: &Address) -> (r: AppError)
    ensures
        r@ == ErrorView::Config(no_decoder_message(*pool)),
{
    let mut s = String::new();
    s.append("No decoder registered for pool: ");
    let text = pool.to_base58();
    s.append(text.as_str());
    assert(s@ =~= no_decoder_message(*pool));
    AppError::ConfigError(s)
}

/// The error for a pool whose DEX type is not registered.
fn no_pool_type_error(pool: &Address) -> (r: AppError)
    ensures
        r@ == ErrorView::Config(no_pool_type_message(*pool)),
{
    let mut s = String::new();
    s.append("Pool type not registered for: ");
    let text = pool.to_base58();
    s.append(text.as_str());
    s.append(". Call register_pool_type first.");
    assert(s@ =~= no_pool_type_message(*pool));
    AppError::ConfigError(s)
}

impl DecoderRegistry {
    /// The DEX type of the decoder of each pool that has one.
    pub closed spec fn decoder_types(&self) -> Map<Address, DexType> {
        self.decoders.view().map_values(|d: Decoder| d.dex_type())
    }

    /// The registered DEX type of each pool.
    pub closed spec fn pool_types(&self) -> Map<Address, DexType> {
        self.pool_types.view()
    }

    /// The statistics of each pool that has been decoded.
    pub closed spec fn stats(&self) -> Map<Address, DecoderStats> {
        self.stats.view()
    }

    /// The time of the last statistics report.
    pub closed spec fn last_stats_log(&self) -> u64 {
        self.last_stats_log
    }

    /// Whether decoding `data` for `pool` can be counted: when the pool has a
    /// decoder, the count that the decoding's outcome raises has room.
    pub open spec fn can_record(&self, pool: Address, data: Seq<u8>) -> bool {
        self.decoder_types().contains_key(pool) ==> room_for(
            stats_or_empty(self.stats(), pool),
            decoding_for(self.decoder_types()[pool], data) is Ok,
        )
    }

    /// Whether decoding `data` for `pool`, with a decoder given to it on
    /// first use, can be counted: when the pool has or gets a decoder, the
    /// count that the decoding's outcome raises has room.
    pub open spec fn can_record_lazy(&self, pool: Address, data: Seq<u8>) -> bool {
        self.types_on_first_use(pool).contains_key(pool) ==> room_for(
            stats_or_empty(self.stats(), pool),
            decoding_for(self.types_on_first_use(pool)[pool], data) is Ok,
        )
    }

    /// Whether `pool` has a decoder or can get one.
    pub open spec fn can_decode(&self, pool: Address) -> bool {
        self.decoder_types().contains_key(pool) || self.pool_types().contains_key(pool)
    }

    /// The decoder types after `pool` gets a decoder on first use.
    pub open spec fn types_on_first_use(&self, pool: Address) -> Map<Address, DexType> {
        if !self.decoder_types().contains_key(pool) && self.pool_types().contains_key(pool) {
            self.decoder_types().insert(pool, self.pool_types()[pool])
        } else {
            self.decoder_types()
        }
    }

    /// An empty registry.
    pub fn new() -> (r: DecoderRegistry)
        ensures
            r.decoder_types() == Map::<Address, DexType>::empty(),
            r.pool_types() == Map::<Address, DexType>::empty(),
            r.stats() == Map::<Address, DecoderStats>::empty(),
            r.last_stats_log() == 0,
    {
        let r = DecoderRegistry {
            decoders: AddressMap::new(),
            pool_types: AddressMap::new(),
            stats: AddressMap::new(),
            last_stats_log: 0,
        };
        assert(r.decoder_types() =~= Map::<Address, DexType>::empty());
        r
    }

    /// Registers a pool and creates its decoder.
    pub fn register_pool(&mut self, pool_config: PoolConfig) -> (r: Result<(), AppError>)
        ensures
            r is Ok,
            final(self).decoder_types() == old(self).decoder_types().insert(
                pool_config@.pool_address,
                pool_config@.dex_type,
            ),
            final(self).pool_types() == old(self).pool_types().insert(
                pool_config@.pool_address,
                pool_config@.dex_type,
            ),
            final(self).stats() == old(self).stats(),
            final(self).last_stats_log() == old(self).last_stats_log(),
    {
        let pool_address = *pool_config.pool_address();
        let dex_type = pool_config.dex_type();
        let decoder = create_decoder(dex_type);
        self.decoders.insert(pool_address, decoder);
        self.pool_types.insert(pool_address, dex_type);
        assert(self.decoder_types() =~= old(self).decoder_types().insert(pool_address, dex_type));
        Ok(())
    }

    /// Checks that a pool has a decoder.
    pub fn get_decoder(&self, pool_address: &Address) -> (r: Result<(), AppError>)
        ensures
            outcome(r) == (if self.decoder_types().contains_key(*pool_address) {
                Ok(())
            } else {
                Err(ErrorView::Config(no_decoder_message(*pool_address)))
            }),
    {
        if self.decoders.contains_key(pool_address) {
            Ok(())
        } else {
            Err(no_decoder_error(pool_address))
        }
    }

    /// Decodes the account data of a pool with its decoder, and counts the
    /// outcome in the pool's statistics as happening at time `now`.
    pub fn decode_pool_data_at(
        &mut self,
        pool_address: &Address,
        account_data: &[u8],
        now: u64,
    ) -> (r: Result<(u64, u64), AppError>)
        requires
            old(self).can_record(*pool_address, account_data@),
        ensures
            final(self).decoder_types() == old(self).decoder_types(),
            final(self).pool_types() == old(self).pool_types(),
            final(self).last_stats_log() == old(self).last_stats_log(),
            !old(self).decoder_types().contains_key(*pool_address) ==> {
                &&& outcome(r) == Err::<(u64, u64), ErrorView>(
                    ErrorView::Config(no_decoder_message(*pool_address)),
                )
                &&& final(self).stats() == old(self).stats()
            },
            old(self).decoder_types().contains_key(*pool_address) ==> {
                &&& outcome(r) == decoding_for(
                    old(self).decoder_types()[*pool_address],
                    account_data@,
                )
                &&& final(self).stats() == old(self).stats().insert(
                    *pool_address,
                    recorded(stats_or_empty(old(self).stats(), *pool_address), r is Ok, now),
                )
            },
    {
        let result = match self.decoders.get(pool_address) {
            Some(decoder) => decoder.decode_reserves(account_data),
            None => {
                return Err(no_decoder_error(pool_address));
            },
        };
        let mut stats = match self.stats.get(pool_address) {
            Some(s) => *s,
            None => DecoderStats::new(),
        };
        match &result {
            Ok(_) => stats.record_success_at(now),
            Err(_) => stats.record_error_at(now),
        }
        self.stats.insert(*pool_address, stats);
        result
    }

    /// Decodes the account data of a pool with its decoder, and counts the
    /// outcome in the pool's statistics as happening at the current time.
    pub fn decode_pool_data(&mut self, pool_address: &Address, account_data: &[u8]) -> (r: Result<
        (u64, u64),
        AppError,
    >)
        requires
            old(self).can_record(*pool_address, account_data@),
        ensures
            final(self).decoder_types() == old(self).decoder_types(),
            final(self).pool_types() == old(self).pool_types(),
            final(self).last_stats_log() == old(self).last_stats_log(),
            !old(self).decoder_types().contains_key(*pool_address) ==> {
                &&& outcome(r) == Err::<(u64, u64), ErrorView>(
                    ErrorView::Config(no_decoder_message(*pool_address)),
                )
                &&& final(self).stats() == old(self).stats()
            },
            old(self).decoder_types().contains_key(*pool_address) ==> {
                &&& outcome(r) == decoding_for(
                    old(self).decoder_types()[*pool_address],
                    account_data@,
                )
                &&& final(self).stats() == old(self).stats().insert(
                    *pool_address,
                    recorded(
                        stats_or_empty(old(self).stats(), *pool_address),
                        r is Ok,
                        time_recorded(final(self).stats()[*pool_address], r is Ok),
                    ),
                )
            },
    {
        let now = current_timestamp();
        self.decode_pool_data_at(pool_address, account_data, now)
    }

    /// The number of pools that have a decoder.
    pub fn pool_count(&self) -> (r: usize)
        ensures
            self.decoder_types().dom().finite(),
            r == self.decoder_types().dom().len(),
    {
        assert(self.decoder_types().dom() =~= self.decoders.view().dom());
        self.decoders.len()
    }

    /// Gives a pool a decoder of its registered DEX type, unless it has one.
    pub fn get_or_create_decoder(&mut self, pool_address: &Address) -> (r: Result<(), AppError>)
        ensures
            final(self).decoder_types() == old(self).types_on_first_use(*pool_address),
            final(self).pool_types() == old(self).pool_types(),
            final(self).stats() == old(self).stats(),
            final(self).last_stats_log() == old(self).last_stats_log(),
            outcome(r) == (if old(self).can_decode(*pool_address) {
                Ok(())
            } else {
                Err(ErrorView::Config(no_pool_type_message(*pool_address)))
            }),
    {
        if self.decoders.contains_key(pool_address) {
            return Ok(());
        }
        let dex_type = match self.pool_types.get(pool_address) {
            Some(t) => *t,
            None => {
                return Err(no_pool_type_error(pool_address));
            },
        };
        let decoder = create_decoder(dex_type);
        self.decoders.insert(*pool_address, decoder);
        assert(self.decoder_types() =~= old(self).decoder_types().insert(
            *pool_address,
            dex_type,
        ));
        Ok(())
    }

    /// Registers the DEX type of a pool without creating its decoder.
    pub fn register_pool_type(&mut self, pool_config: PoolConfig) -> (r: Result<(), AppError>)
        ensures
            r is Ok,
            final(self).decoder_types() == old(self).decoder_types(),
            final(self).pool_types() == old(self).pool_types().insert(
                pool_config@.pool_address,
                pool_config@.dex_type,
            ),
            final(self).stats() == old(self).stats(),
            final(self).last_stats_log() == old(self).last_stats_log(),
    {
        let pool_address = *pool_config.pool_address();
        let dex_type = pool_config.dex_type();
        self.pool_types.insert(pool_address, dex_type);
        Ok(())
    }

    /// Decodes the account data of a pool, giving it a decoder of its
    /// registered DEX type first if it has none.
    pub fn decode_pool_data_lazy(&mut self, pool_address: &Address, account_data: &[u8]) -> (r:
        Result<(u64, u64), AppError>)
        requires
            old(self).can_record_lazy(*pool_address, account_data@),
        ensures
            final(self).decoder_types() == old(self).types_on_first_use(*pool_address),
            final(self).pool_types() == old(self).pool_types(),
            final(self).last_stats_log() == old(self).last_stats_log(),
            !old(self).can_decode(*pool_address) ==> {
                &&& outcome(r) == Err::<(u64, u64), ErrorView>(
                    ErrorView::Config(no_pool_type_message(*pool_address)),
                )
                &&& final(self).stats() == old(self).stats()
            },
            old(self).can_decode(*pool_address) ==> {
                &&& outcome(r) == decoding_for(
                    final(self).decoder_types()[*pool_address],
                    account_data@,
                )
                &&& final(self).stats() == old(self).stats().insert(
                    *pool_address,
                    recorded(
                        stats_or_empty(old(self).stats(), *pool_address),
                        r is Ok,
                        time_recorded(final(self).stats()[*pool_address], r is Ok),
                    ),
                )
            },
    {
        match self.get_or_create_decoder(pool_address) {
            Ok(()) => {},
            Err(e) => {
                return Err(e);
            },
        }
        self.decode_pool_data(pool_address, account_data)
    }

    /// The statistics of a pool, if it has been decoded.
    pub fn get_stats(&self, pool_address: &Address) -> (r: Option<DecoderStats>)
        ensures
            r == (if self.stats().contains_key(*pool_address) {
                Some(self.stats()[*pool_address])
            } else {
                None::<DecoderStats>
            }),
    {
        match self.stats.get(pool_address) {
            Some(s) => Some(*s),
            None => None,
        }
    }

    /// The statistics of every pool that has been decoded, each pool once.
    pub fn get_all_stats(&self) -> (r: Vec<(Address, DecoderStats)>)
        ensures
            distinct_keys(r@),
            map_of(r@) == self.stats(),
    {
        self.stats.to_vec()
    }

    /// Decides whether a statistics report is due at time `now`, and if so
    /// records `now` as the time of the last report. The caller writes the
    /// report.
    pub fn log_stats_at(&mut self, force: bool, now: u64) -> (r: bool)
        ensures
            r == stats_log_due(force, now, old(self).last_stats_log()),
            final(self).last_stats_log() == (if r {
                now
            } else {
                old(self).last_stats_log()
            }),
            final(self).decoder_types() == old(self).decoder_types(),
            final(self).pool_types() == old(self).pool_types(),
            final(self).stats() == old(self).stats(),
    {
        if !force {
            let last_log = self.last_stats_log;
            if now >= last_log && now - last_log < 300 {
                return false;
            }
        }
        self.last_stats_log = now;
        true
    }

    /// Decides whether a statistics report is due at the current time, and if
    /// so records the time of the report. The caller writes the report.
    pub fn log_stats(&mut self, force: bool) -> (r: bool)
        ensures
            force ==> r,
            r ==> stats_log_due(force, final(self).last_stats_log(), old(self).last_stats_log()),
            !r ==> final(self).last_stats_log() == old(self).last_stats_log(),
            final(self).decoder_types() == old(self).decoder_types(),
            final(self).pool_types() == old(self).pool_types(),
            final(self).stats() == old(self).stats(),
    {
        let now = current_timestamp();
        self.log_stats_at(force, now)
    }

    /// Forgets the statistics of every pool.
    pub fn reset_stats(&mut self)
        ensures
            final(self).stats() == Map::<Address, DecoderStats>::empty(),
            final(self).decoder_types() == old(self).decoder_types(),
            final(self).pool_types() == old(self).pool_types(),
            final(self).last_stats_log() == old(self).last_stats_log(),
    {
        self.stats.clear();
    }

    /// Forgets the statistics of one pool.
    pub fn reset_pool_stats(&mut self, pool_address: &Address)
        ensures
            final(self).stats() == old(self).stats().remove(*pool_address),
            final(self).decoder_types() == old(self).decoder_types(),
            final(self).pool_types() == old(self).pool_types(),
            final(self).last_stats_log() == old(self).last_stats_log(),
    {
        self.stats.remove(pool_address);
    }
}

impl Default for DecoderRegistry {
    fn default() -> (r: DecoderRegistry)
        ensures
            r.decoder_types() == Map::<Address, DexType>::empty(),
            r.pool_types() == Map::<Address, DexType>::empty(),
            r.stats() == Map::<Address, DecoderStats>::empty(),
            r.last_stats_log() == 0,
    {
        DecoderRegistry::new()
    }
}

} // verus!

verus! {

/// For every supported kind of DEX, account data decodes only when it
/// validates, and a failed validation is the decoding's error.
pub proof fn lemma_decoding_needs_validation(t: DexType, d: Seq<u8>)
    ensures
        decoding_for(t, d) is Ok ==> validation_for(t, d) is Ok,
        validation_for(t, d) matches Err(e) ==> decoding_for(t, d) == Err::<(u64, u64), ErrorView>(
            e,
        ),
{
}

/// Raydium pool accounts never decode: a valid one gives the error that
/// decoding Raydium reserves is not supported yet.
pub proof fn lemma_raydium_never_decodes(d: Seq<u8>)
    ensures
        decoding_for(DexType::Raydium, d) is Err,
        validation_for(DexType::Raydium, d) is Ok ==> decoding_for(DexType::Raydium, d) == Err::<
            (u64, u64),
            ErrorView,
        >(ErrorView::Decoding(raydium::unsupported_message())),
{
}

/// Giving a pool its decoder on first use is idempotent: once it was done,
/// doing it again changes nothing, and a pool that could get a decoder has
/// one.
pub proof fn lemma_first_use_idempotent(r1: DecoderRegistry, r2: DecoderRegistry, pool: Address)
    requires
        r2.decoder_types() == r1.types_on_first_use(pool),
        r2.pool_types() == r1.pool_types(),
    ensures
        r2.types_on_first_use(pool) == r2.decoder_types(),
        r1.can_decode(pool) ==> r2.decoder_types().contains_key(pool),
        r2.can_decode(pool) == r1.can_decode(pool),
{
}

/// A pool whose DEX type alone was registered gets on first use a decoder of
/// that type, and only that pool gets one.
pub proof fn lemma_first_use_by_registered_type(r: DecoderRegistry, pool: Address, other: Address)
    requires
        !r.decoder_types().contains_key(pool),
        r.pool_types().contains_key(pool),
        other != pool,
    ensures
        r.types_on_first_use(pool)[pool] == r.pool_types()[pool],
        r.types_on_first_use(pool).contains_key(other) == r.decoder_types().contains_key(other),
{
}

/// Counting a decoding adds exactly one attempt, a success or an error; the
/// time of the first success, once set, never changes.
pub proof fn lemma_recorded_counts(s: DecoderStats, succeeded: bool, now: u64)
    requires
        room_for(s, succeeded),
    ensures
        recorded(s, succeeded, now).success_count + recorded(s, succeeded, now).error_count
            == s.success_count + s.error_count + 1,
        succeeded ==> recorded(s, succeeded, now).success_count == s.success_count + 1,
        !succeeded ==> recorded(s, succeeded, now).error_count == s.error_count + 1,
        s.first_success_time is Some ==> recorded(s, succeeded, now).first_success_time
            == s.first_success_time,
        succeeded ==> recorded(s, succeeded, now).first_success_time is Some,
        time_recorded(recorded(s, succeeded, now), succeeded) == now,
{
}

/// Reports that are not forced are at least the interval apart: after a
/// report at time `t`, one at a time less than the interval later is due only
/// when forced.
pub proof fn lemma_stats_log_spacing(t: u64, now: u64)
    requires
        t <= now,
        now - t < stats_log_interval(),
    ensures
        !stats_log_due(false, now, t),
        stats_log_due(true, now, t),
{
}

} // verus!
