//! The bookkeeping of price fetching: request metrics, the retry schedule,
//! the request URL, and which tokens must be fetched.

use crate::error::{AppError, ErrorView};
use crate::text::{decimal, push_decimal, same_text};
use vstd::arithmetic::power2::{lemma2_to64, lemma2_to64_rest, lemma_pow2_strictly_increases, pow2};
use vstd::bits::lemma_u64_shl_is_mul;
use vstd::prelude::*;

verus! {

/// Counts of the price requests made, and the time that successful ones took.
#[derive(Debug, Clone, Copy)]
pub struct PriceFetcherMetrics {
    /// Total number of requests made.
    pub total_requests: u64,
    /// Number of successful requests.
    pub successful_requests: u64,
    /// Number of failed requests.
    pub failed_requests: u64,
    /// Total response time of the successful requests, in milliseconds.
    pub total_response_time_ms: u64,
}

/// Metrics with nothing counted.
pub open spec fn zero_metrics() -> PriceFetcherMetrics {
    PriceFetcherMetrics {
        total_requests: 0,
        successful_requests: 0,
        failed_requests: 0,
        total_response_time_ms: 0,
    }
}

/// Whether the successes and failures counted are at most the requests made.
pub open spec fn consistent(m: PriceFetcherMetrics) -> bool {
    m.successful_requests + m.failed_requests <= m.total_requests
}

/// The metrics after one more request.
pub open spec fn after_request(m: PriceFetcherMetrics) -> PriceFetcherMetrics {
    PriceFetcherMetrics { total_requests: (m.total_requests + 1) as u64, ..m }
}

/// The metrics after one more successful request that took `elapsed_ms`.
pub open spec fn after_success(m: PriceFetcherMetrics, elapsed_ms: u64) -> PriceFetcherMetrics {
    PriceFetcherMetrics {
        successful_requests: (m.successful_requests + 1) as u64,
        total_response_time_ms: (m.total_response_time_ms + elapsed_ms) as u64,
        ..m
    }
}

/// The metrics after one more failed request.
pub open spec fn after_failure(m: PriceFetcherMetrics) -> PriceFetcherMetrics {
    PriceFetcherMetrics { failed_requests: (m.failed_requests + 1) as u64, ..m }
}

/// The metrics after one attempt, counted as a request and as its outcome.
pub open spec fn after_attempt(m: PriceFetcherMetrics, succeeded: bool, elapsed_ms: u64) -> PriceFetcherMetrics {
    if succeeded {
        after_success(after_request(m), elapsed_ms)
    } else {
        after_failure(after_request(m))
    }
}

impl Default for PriceFetcherMetrics {
    fn default() -> (r: PriceFetcherMetrics)
        ensures
            r == zero_metrics(),
    {
        PriceFetcherMetrics {
            total_requests: 0,
            successful_requests: 0,
            failed_requests: 0,
            total_response_time_ms: 0,
        }
    }
}

impl PriceFetcherMetrics {
    /// Counts one more request.
    pub fn record_request(&mut self)
        requires
            old(self).total_requests < u64::MAX,
        ensures
            *final(self) == after_request(*old(self)),
    {
        self.total_requests = self.total_requests + 1;
    }

    /// Counts one more successful request that took `elapsed_ms`.
    pub fn record_success(&mut self, elapsed_ms: u64)
        requires
            old(self).successful_requests < u64::MAX,
            old(self).total_response_time_ms + elapsed_ms <= u64::MAX,
        ensures
            *final(self) == after_success(*old(self), elapsed_ms),
    {
        self.successful_requests = self.successful_requests + 1;
        self.total_response_time_ms = self.total_response_time_ms + elapsed_ms;
    }

    /// Counts one more failed request.
    pub fn record_failure(&mut self)
        requires
            old(self).failed_requests < u64::MAX,
        ensures
            *final(self) == after_failure(*old(self)),
    {
        self.failed_requests = self.failed_requests + 1;
    }

    /// Counts one attempt: a request, and its success (with the time it took)
    /// or its failure.
    pub fn record_attempt(&mut self, succeeded: bool, elapsed_ms: u64)
        requires
            old(self).total_requests < u64::MAX,
            succeeded ==> old(self).successful_requests < u64::MAX,
            succeeded ==> old(self).total_response_time_ms + elapsed_ms <= u64::MAX,
            !succeeded ==> old(self).failed_requests < u64::MAX,
        ensures
            *final(self) == after_attempt(*old(self), succeeded, elapsed_ms),
    {
        self.record_request();
        if succeeded {
            self.record_success(elapsed_ms);
        } else {
            self.record_failure();
        }
    }
}

/// The delay in milliseconds before the attempt numbered `attempt` (from 0)
/// of a fetch: none before the first attempt, then 500 ms before the first
/// retry, doubling with each further retry (500 ms, 1 s, 2 s, ...).
pub open spec fn backoff_delay(attempt: nat) -> nat {
    if attempt == 0 {
        0
    } else {
        500 * pow2((attempt - 1) as nat)
    }
}

/// The delay before the attempt numbered `attempt` (from 0) of a fetch that
/// makes one attempt and then at most `max_retries` retries, or `None` when
/// no attempt is left.
pub fn delay_before_attempt(attempt: u32, max_retries: u32) -> (r: Option<u64>)
    requires
        attempt <= max_retries ==> attempt <= 56,
    ensures
        r is None <==> attempt > max_retries,
        r matches Some(d) ==> d == backoff_delay(attempt as nat),
{
    if attempt > max_retries {
        return None;
    }
    if attempt == 0 {
        return Some(0);
    }
    let shift: u64 = (attempt - 1) as u64;
    proof {
        lemma2_to64();
        lemma2_to64_rest();
        if shift < 55 {
            lemma_pow2_strictly_increases(shift as nat, 55);
        }
        assert(500 * pow2(shift as nat) <= 500 * pow2(55)) by (nonlinear_arith)
            requires
                pow2(shift as nat) <= pow2(55),
        ;
        lemma_u64_shl_is_mul(1u64, shift);
    }
    let factor: u64 = 1u64 << shift;
    Some(500 * factor)
}

/// The text of a list of texts joined by a separator.
pub open spec fn joined(items: Seq<Seq<char>>, sep: Seq<char>) -> Seq<char>
    decreases items.len(),
{
    if items.len() == 0 {
        Seq::empty()
    } else if items.len() == 1 {
        items[0]
    } else {
        joined(items.drop_last(), sep) + sep + items.last()
    }
}

/// The texts of a list of strings.
pub open spec fn texts(items: Seq<String>) -> Seq<Seq<char>> {
    items.map_values(|s: String| s@)
}

/// The URL of a simple price request for the given ids (joined by commas)
/// at an API.
pub open spec fn price_url(api_url: Seq<char>, ids: Seq<char>) -> Seq<char> {
    api_url + "/simple/price?ids="@ + ids + "&vs_currencies=usd"@
}

/// The URL of a simple price request for several tokens at once.
pub fn batch_price_url(api_url: &str, token_ids: &Vec<String>) -> (r: String)
    ensures
        r@ == price_url(api_url@, joined(texts(token_ids@), ","@)),
{
    let mut s = String::new();
    s.append(api_url);
    s.append("/simple/price?ids=");
    let ghost start = s@;
    let mut i: usize = 0;
    while i < token_ids.len()
        invariant
            i <= token_ids@.len(),
            s@ == start + joined(texts(token_ids@).take(i as int), ","@),
        decreases token_ids@.len() - i,
    {
        if i > 0 {
            s.append(",");
        }
        s.append(token_ids[i].as_str());
        proof {
            let items = texts(token_ids@);
            assert(items.take(i + 1).drop_last() =~= items.take(i as int));
            assert(items.take(i + 1).last() == token_ids@[i as int]@);
            if i == 0 {
                assert(items.take(1).len() == 1);
            }
        }
        i = i + 1;
    }
    assert(texts(token_ids@).take(token_ids@.len() as int) =~= texts(token_ids@));
    s.append("&vs_currencies=usd");
    assert(s@ =~= price_url(api_url@, joined(texts(token_ids@), ","@)));
    s
}

/// The URL of a simple price request for one token.
pub fn single_price_url(api_url: &str, token_id: &str) -> (r: String)
    ensures
        r@ == price_url(api_url@, token_id@),
{
    let mut s = String::new();
    s.append(api_url);
    s.append("/simple/price?ids=");
    s.append(token_id);
    s.append("&vs_currencies=usd");
    assert(s@ =~= price_url(api_url@, token_id@));
    s
}

/// The tokens of `ids` that have no fresh cached price, in order.
pub open spec fn pending(ids: Seq<Seq<char>>, fresh: Seq<bool>) -> Seq<Seq<char>>
    decreases ids.len(),
{
    if ids.len() == 0 {
        Seq::empty()
    } else {
        pending(ids.drop_last(), fresh.take(ids.len() - 1)) + if fresh[ids.len() - 1] {
            Seq::empty()
        } else {
            seq![ids.last()]
        }
    }
}

/// The tokens that must be fetched: those whose cached price is not fresh,
/// where `fresh[i]` tells whether token `i` has a fresh cached price.
pub fn tokens_to_fetch(token_ids: &Vec<String>, fresh: &Vec<bool>) -> (r: Vec<String>)
    requires
        token_ids@.len() == fresh@.len(),
    ensures
        texts(r@) == pending(texts(token_ids@), fresh@),
{
    let mut r: Vec<String> = Vec::new();
    let mut i: usize = 0;
    while i < token_ids.len()
        invariant
            i <= token_ids@.len(),
            token_ids@.len() == fresh@.len(),
            texts(r@) == pending(texts(token_ids@).take(i as int), fresh@.take(i as int)),
        decreases token_ids@.len() - i,
    {
        let ghost before = r@;
        if !fresh[i] {
            r.push(token_ids[i].clone());
        }
        proof {
            let items = texts(token_ids@).take(i + 1);
            assert(items.drop_last() =~= texts(token_ids@).take(i as int));
            assert(fresh@.take(i + 1).take(i as int) =~= fresh@.take(i as int));
            assert(items.last() == token_ids@[i as int]@);
            assert(fresh@.take(i + 1)[i as int] == fresh@[i as int]);
            assert(texts(r@) =~= texts(before) + if fresh@[i as int] {
                Seq::<Seq<char>>::empty()
            } else {
                seq![token_ids@[i as int]@]
            });
        }
        i = i + 1;
    }
    assert(texts(token_ids@).take(token_ids@.len() as int) =~= texts(token_ids@));
    assert(fresh@.take(fresh@.len() as int) =~= fresh@);
    r
}

/// The value of the first entry, from the one at index `j` on, whose id is
/// `id`, if any.
pub open spec fn lookup_from<V>(entries: Seq<(String, V)>, id: Seq<char>, j: int) -> Option<V>
    decreases entries.len() - j,
{
    if j >= entries.len() {
        None
    } else if entries[j].0@ == id {
        Some(entries[j].1)
    } else {
        lookup_from(entries, id, j + 1)
    }
}

/// The ids and values of a list of entries, the ids taken as text.
pub open spec fn entry_texts<V>(entries: Seq<(String, V)>) -> Seq<(Seq<char>, V)> {
    entries.map_values(|e: (String, V)| (e.0@, e.1))
}

/// The prices that a batch response gives for the requested ids: each
/// requested id that the response holds, in the order of the request, with
/// the response's price for it.
pub open spec fn found_prices<V>(ids: Seq<Seq<char>>, entries: Seq<(String, V)>) -> Seq<
    (Seq<char>, V),
>
    decreases ids.len(),
{
    if ids.len() == 0 {
        Seq::empty()
    } else {
        found_prices(ids.drop_last(), entries) + match lookup_from(entries, ids.last(), 0) {
            Some(v) => seq![(ids.last(), v)],
            None => Seq::empty(),
        }
    }
}

/// The price that a batch response gives for an id, if any.
pub fn lookup_price<V: Copy>(entries: &Vec<(String, V)>, id: &str) -> (r: Option<V>)
    ensures
        r == lookup_from(entries@, id@, 0),
{
    let mut j: usize = 0;
    while j < entries.len()
        invariant
            j <= entries@.len(),
            lookup_from(entries@, id@, 0) == lookup_from(entries@, id@, j as int),
        decreases entries@.len() - j,
    {
        if same_text(entries[j].0.as_str(), id) {
            return Some(entries[j].1);
        }
        j = j + 1;
    }
    None
}

/// The prices that a batch response gives for the requested tokens; ids of
/// the response that were not requested are left out.
pub fn batch_prices<V: Copy>(requested: &Vec<String>, entries: &Vec<(String, V)>) -> (r: Vec<
    (String, V),
>)
    ensures
        entry_texts(r@) == found_prices(texts(requested@), entries@),
{
    let mut r: Vec<(String, V)> = Vec::new();
    let mut i: usize = 0;
    while i < requested.len()
        invariant
            i <= requested@.len(),
            entry_texts(r@) == found_prices(texts(requested@).take(i as int), entries@),
        decreases requested@.len() - i,
    {
        let ghost before = r@;
        let found = lookup_price(entries, requested[i].as_str());
        match found {
            Some(v) => {
                r.push((requested[i].clone(), v));
            },
            None => {},
        }
        proof {
            let ids = texts(requested@).take(i + 1);
            assert(ids.drop_last() =~= texts(requested@).take(i as int));
            assert(ids.last() == requested@[i as int]@);
            assert(entry_texts(r@) =~= entry_texts(before) + match lookup_from(
                entries@,
                requested@[i as int]@,
                0,
            ) {
                Some(v) => seq![(requested@[i as int]@, v)],
                None => Seq::empty(),
            });
        }
        i = i + 1;
    }
    assert(texts(requested@).take(requested@.len() as int) =~= texts(requested@));
    r
}

/// How the batch request of a price fetch went.
#[derive(Debug, Clone, Copy, PartialEq, Eq, Structural)]
pub enum BatchOutcome {
    /// The request could not be sent or got no response.
    SendFailed,
    /// The response has a status other than success.
    ErrorStatus,
    /// The response has a success status.
    Received,
}

/// What a price fetch does after its batch request.
#[derive(Debug, Clone, Copy, PartialEq, Eq, Structural)]
pub enum BatchAction {
    /// Fetch the tokens one by one, with retries.
    FetchIndividually,
    /// Read and parse the body of the response.
    ReadBody,
}

/// The action that follows a batch request: a response with a success status
/// is read; otherwise the tokens are fetched one by one.
pub open spec fn batch_action(outcome: BatchOutcome) -> BatchAction {
    match outcome {
        BatchOutcome::Received => BatchAction::ReadBody,
        _ => BatchAction::FetchIndividually,
    }
}

/// The metrics after a batch request, before its body is read: one more
/// request, and one more failure when it could not be sent.
pub open spec fn after_batch(m: PriceFetcherMetrics, outcome: BatchOutcome) -> PriceFetcherMetrics {
    match outcome {
        BatchOutcome::SendFailed => after_failure(after_request(m)),
        _ => after_request(m),
    }
}

/// Counts a batch request by how it went, and decides what follows it.
pub fn after_batch_request(metrics: &mut PriceFetcherMetrics, outcome: BatchOutcome) -> (r:
    BatchAction)
    requires
        old(metrics).total_requests < u64::MAX,
        outcome == BatchOutcome::SendFailed ==> old(metrics).failed_requests < u64::MAX,
    ensures
        r == batch_action(outcome),
        *final(metrics) == after_batch(*old(metrics), outcome),
{
    metrics.record_request();
    match outcome {
        BatchOutcome::SendFailed => {
            metrics.record_failure();
            BatchAction::FetchIndividually
        },
        BatchOutcome::ErrorStatus => BatchAction::FetchIndividually,
        BatchOutcome::Received => BatchAction::ReadBody,
    }
}

/// Whether a cached price of the given age is fresh: it expires only once
/// its age exceeds the cache lifetime.
pub fn is_fresh(age_nanos: u128, ttl_nanos: u128) -> (r: bool)
    ensures
        r == (age_nanos <= ttl_nanos),
{
    age_nanos <= ttl_nanos
}

/// The cached price to serve without a request: the cached one, given with
/// its age, while it is fresh.
pub open spec fn fresh_cached<V>(cached: Option<(V, u128)>, ttl_nanos: u128) -> Option<V> {
    match cached {
        Some((price, age)) => if age <= ttl_nanos {
            Some(price)
        } else {
            None
        },
        None => None,
    }
}

/// The cached price to serve without a request, if there is a fresh one.
pub fn fresh_price<V: Copy>(cached: Option<(V, u128)>, ttl_nanos: u128) -> (r: Option<V>)
    ensures
        r == fresh_cached(cached, ttl_nanos),
{
    match cached {
        Some((price, age)) => if is_fresh(age, ttl_nanos) {
            Some(price)
        } else {
            None
        },
        None => None,
    }
}

/// The price given after a fetch, where a stale cached price may stand in:
/// the fetched price; else the cached one, however old; else the fetch's
/// error.
pub open spec fn with_fallback<V>(fetched: Result<V, AppError>, cached: Option<V>) -> Result<
    V,
    AppError,
> {
    match fetched {
        Ok(p) => Ok(p),
        Err(e) => match cached {
            Some(c) => Ok(c),
            None => Err(e),
        },
    }
}

/// Chooses between a fetched price and a cached one as [`with_fallback`]
/// says.
pub fn fallback_choice<V: Copy>(fetched: Result<V, AppError>, cached: Option<V>) -> (r: Result<
    V,
    AppError,
>)
    ensures
        r == with_fallback(fetched, cached),
{
    match fetched {
        Ok(p) => Ok(p),
        Err(e) => match cached {
            Some(c) => Ok(c),
            None => Err(e),
        },
    }
}

/// The interval between two background refreshes of the prices: half the
/// cache lifetime, in nanoseconds.
pub fn refresh_interval_nanos(ttl_nanos: u128) -> (r: u128)
    ensures
        r == ttl_nanos / 2,
{
    ttl_nanos / 2
}

/// What the background refresh loop is woken by.
#[derive(Debug, Clone, Copy, PartialEq, Eq, Structural)]
pub enum RefreshEvent {
    /// The refresh interval has passed.
    Tick,
    /// The shutdown flag changed; it now has the given value.
    ShutdownChanged(bool),
}

/// What the background refresh loop does next.
#[derive(Debug, Clone, Copy, PartialEq, Eq, Structural)]
pub enum RefreshAction {
    /// Fetch the prices of the tokens, then wait again.
    FetchPrices,
    /// Wait again.
    Continue,
    /// Leave the loop.
    Stop,
}

/// The step of the refresh loop for an event: a tick fetches the prices; the
/// loop stops when the shutdown flag turns true and goes on otherwise.
pub open spec fn refresh_action(e: RefreshEvent) -> RefreshAction {
    match e {
        RefreshEvent::Tick => RefreshAction::FetchPrices,
        RefreshEvent::ShutdownChanged(true) => RefreshAction::Stop,
        RefreshEvent::ShutdownChanged(false) => RefreshAction::Continue,
    }
}

/// Decides the step of the refresh loop for an event.
pub fn refresh_step(e: RefreshEvent) -> (r: RefreshAction)
    ensures
        r == refresh_action(e),
{
    match e {
        RefreshEvent::Tick => RefreshAction::FetchPrices,
        RefreshEvent::ShutdownChanged(true) => RefreshAction::Stop,
        RefreshEvent::ShutdownChanged(false) => RefreshAction::Continue,
    }
}

/// The message when every attempt to fetch the price of a token failed
/// without an error to report.
pub open spec fn retries_exhausted_message(token_id: Seq<char>, max_retries: nat) -> Seq<char> {
    "Failed to fetch price for "@ + token_id + " after "@ + decimal(max_retries) + " retries"@
}

/// The error when every attempt to fetch the price of a token failed without
/// an error to report.
pub fn retries_exhausted(token_id: &str, max_retries: u32) -> (r: AppError)
    ensures
        r@ == ErrorView::Price(retries_exhausted_message(token_id@, max_retries as nat)),
{
    let mut s = String::new();
    s.append("Failed to fetch price for ");
    s.append(token_id);
    s.append(" after ");
    push_decimal(&mut s, max_retries as u64);
    s.append(" retries");
    assert(s@ =~= retries_exhausted_message(token_id@, max_retries as nat));
    AppError::PriceError(s)
}

/// The error when a response holds no price for a token.
pub fn token_not_found(token_id: &str) -> (r: AppError)
    ensures
        r@ == ErrorView::Price("Token "@ + token_id@ + " not found in response"@),
{
    let mut s = String::new();
    s.append("Token ");
    s.append(token_id);
    s.append(" not found in response");
    assert(s@ =~= "Token "@ + token_id@ + " not found in response"@);
    AppError::PriceError(s)
}

} // verus!

verus! {

/// An attempt counts one request and exactly one outcome, so metrics whose
/// successes and failures are at most their requests stay so.
pub proof fn lemma_attempt_keeps_consistent(m: PriceFetcherMetrics, succeeded: bool, elapsed_ms: u64)
    requires
        consistent(m),
        m.total_requests < u64::MAX,
        m.successful_requests < u64::MAX,
        m.failed_requests < u64::MAX,
        m.total_response_time_ms + elapsed_ms <= u64::MAX,
    ensures
        consistent(after_attempt(m, succeeded, elapsed_ms)),
        after_attempt(m, succeeded, elapsed_ms).total_requests == m.total_requests + 1,
        after_attempt(m, succeeded, elapsed_ms).successful_requests + after_attempt(
            m,
            succeeded,
            elapsed_ms,
        ).failed_requests == m.successful_requests + m.failed_requests + 1,
{
}

/// A batch request counts the request first and its outcome, if any, after:
/// the metrics stay consistent at each step, and a response that was read
/// and parsed is counted as one success.
pub proof fn lemma_batch_keeps_consistent(m: PriceFetcherMetrics, outcome: BatchOutcome, elapsed_ms: u64)
    requires
        consistent(m),
        m.total_requests < u64::MAX,
        m.successful_requests < u64::MAX,
        m.failed_requests < u64::MAX,
        m.total_response_time_ms + elapsed_ms <= u64::MAX,
    ensures
        consistent(after_batch(m, outcome)),
        outcome == BatchOutcome::Received ==> consistent(
            after_success(after_batch(m, outcome), elapsed_ms),
        ),
        after_batch(m, outcome).total_requests == m.total_requests + 1,
{
}

/// The delay before the first retry is 500 ms, and it doubles from one
/// retry to the next: with three retries the waits are 500 ms, 1 s and 2 s.
pub proof fn lemma_backoff_doubles(attempt: nat)
    requires
        attempt >= 1,
    ensures
        backoff_delay(attempt + 1) == 2 * backoff_delay(attempt),
        backoff_delay(1) == 500,
        backoff_delay(2) == 1000,
        backoff_delay(3) == 2000,
{
    vstd::arithmetic::power2::lemma_pow2_unfold(attempt);
    vstd::arithmetic::power2::lemma2_to64();
}

/// The request for one token is the batch request for that token alone.
pub proof fn lemma_single_is_batch_of_one(api_url: Seq<char>, token_id: Seq<char>)
    ensures
        price_url(api_url, joined(seq![token_id], ","@)) == price_url(api_url, token_id),
{
}

/// When every token has a fresh cached price nothing is fetched, and when none
/// has every token is fetched.
pub proof fn lemma_pending_extremes(ids: Seq<Seq<char>>, fresh: Seq<bool>)
    requires
        ids.len() == fresh.len(),
    ensures
        (forall|i: int| 0 <= i < fresh.len() ==> fresh[i]) ==> pending(ids, fresh) == Seq::<
            Seq<char>,
        >::empty(),
        (forall|i: int| 0 <= i < fresh.len() ==> !fresh[i]) ==> pending(ids, fresh) == ids,
    decreases ids.len(),
{
    if ids.len() > 0 {
        let n = ids.len() - 1;
        lemma_pending_extremes(ids.drop_last(), fresh.take(n));
        assert(ids.drop_last().push(ids.last()) =~= ids);
        if forall|i: int| 0 <= i < fresh.len() ==> !fresh[i] {
            assert(!fresh[n]);
            assert(pending(ids, fresh) =~= ids.drop_last() + seq![ids.last()]);
        }
    }
}

} // verus!

verus! {

/// A price that was fetched is always the one given; when the fetch fails,
/// a cached price stands in however old it is, so an error comes only when
/// nothing is cached.
pub proof fn lemma_fallback_fails_only_without_cache<V>(fetched: Result<V, AppError>, cached: Option<V>)
    ensures
        fetched matches Ok(p) ==> with_fallback(fetched, cached) == Ok::<V, AppError>(p),
        with_fallback(fetched, cached) is Err <==> (fetched is Err && cached is None),
        fetched is Err ==> (cached matches Some(c) ==> with_fallback(fetched, cached) == Ok::<
            V,
            AppError,
        >(c)),
{
}

/// A cached price is served without a request up to the end of the cache
/// lifetime and not after it.
pub proof fn lemma_fresh_until_ttl<V>(price: V, age: u128, ttl_nanos: u128)
    ensures
        age <= ttl_nanos ==> fresh_cached(Some((price, age)), ttl_nanos) == Some(price),
        age > ttl_nanos ==> fresh_cached(Some((price, age)), ttl_nanos) is None,
        fresh_cached(None::<(V, u128)>, ttl_nanos) is None,
{
}

/// The refresh loop stops exactly when the shutdown flag turns true, and
/// fetches prices exactly on a tick.
pub proof fn lemma_refresh_stops_only_on_shutdown(e: RefreshEvent)
    ensures
        refresh_action(e) == RefreshAction::Stop <==> e == RefreshEvent::ShutdownChanged(true),
        refresh_action(e) == RefreshAction::FetchPrices <==> e == RefreshEvent::Tick,
{
}

} // verus!

verus! {

/// The prices taken from a batch response are only for requested ids, each
/// with the response's price for it, and there are at most as many as ids
/// requested.
pub proof fn lemma_found_prices_requested<V>(ids: Seq<Seq<char>>, entries: Seq<(String, V)>)
    ensures
        found_prices(ids, entries).len() <= ids.len(),
        forall|k: int|
            0 <= k < found_prices(ids, entries).len() ==> {
                &&& ids.contains(#[trigger] found_prices(ids, entries)[k].0)
                &&& lookup_from(entries, found_prices(ids, entries)[k].0, 0) == Some(
                    found_prices(ids, entries)[k].1,
                )
            },
    decreases ids.len(),
{
    if ids.len() > 0 {
        let front = ids.drop_last();
        lemma_found_prices_requested(front, entries);
        let f = found_prices(front, entries);
        let all = found_prices(ids, entries);
        assert forall|k: int| 0 <= k < all.len() implies {
            &&& ids.contains(#[trigger] all[k].0)
            &&& lookup_from(entries, all[k].0, 0) == Some(all[k].1)
        } by {
            if k < f.len() {
                assert(all[k] == f[k]);
                let i = choose|i: int| 0 <= i < front.len() && front[i] == f[k].0;
                assert(ids[i] == front[i]);
            } else {
                assert(ids[ids.len() - 1] == ids.last());
            }
        }
    }
}

} // verus!

verus! {

/// Every token without a fresh cached price is fetched, and every token
/// fetched is one without a fresh cached price; the tokens fetched are as many
/// as those without one.
pub proof fn lemma_pending_pointwise(ids: Seq<Seq<char>>, fresh: Seq<bool>)
    requires
        ids.len() == fresh.len(),
    ensures
        forall|i: int| 0 <= i < ids.len() && !fresh[i] ==> pending(ids, fresh).contains(ids[i]),
        forall|k: int|
            0 <= k < pending(ids, fresh).len() ==> exists|i: int|
                0 <= i < ids.len() && !fresh[i] && #[trigger] pending(ids, fresh)[k] == ids[i],
        pending(ids, fresh).len() == fresh.filter(|b: bool| !b).len(),
    decreases ids.len(),
{
    if ids.len() > 0 {
        let n = ids.len() - 1;
        let front = ids.drop_last();
        let ff = fresh.take(n);
        lemma_pending_pointwise(front, ff);
        let p0 = pending(front, ff);
        let p = pending(ids, fresh);
        assert forall|i: int| 0 <= i < ids.len() && !fresh[i] implies p.contains(ids[i]) by {
            if i < n {
                assert(ff[i] == fresh[i]);
                assert(front[i] == ids[i]);
                let k = choose|k: int| 0 <= k < p0.len() && p0[k] == front[i];
                assert(p[k] == p0[k]);
            } else {
                assert(p[p.len() - 1] == ids.last());
            }
        }
        assert forall|k: int| 0 <= k < p.len() implies exists|i: int|
            0 <= i < ids.len() && !fresh[i] && #[trigger] p[k] == ids[i] by {
            if k < p0.len() {
                assert(p[k] == p0[k]);
                let i = choose|i: int| 0 <= i < front.len() && !ff[i] && p0[k] == front[i];
                assert(ff[i] == fresh[i] && front[i] == ids[i]);
            } else {
                assert(p[k] == ids.last());
                assert(ids[n] == ids.last());
            }
        }
        assert(fresh =~= ff.push(fresh.last()));
        ff.lemma_filter_push(fresh.last(), |b: bool| !b);
    } else {
        reveal(Seq::filter);
    }
}

} // verus!
