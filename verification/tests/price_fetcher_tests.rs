use datanalyzer::price_fetcher::{
    after_batch_request, batch_price_url, batch_prices, delay_before_attempt, lookup_price, fallback_choice, fresh_price,
    is_fresh, refresh_interval_nanos, refresh_step, retries_exhausted, single_price_url,
    token_not_found, tokens_to_fetch, BatchAction, BatchOutcome, PriceFetcherMetrics,
    RefreshAction, RefreshEvent,
};
use datanalyzer::AppError;

#[test]
fn test_metrics_default() {
    let metrics = PriceFetcherMetrics::default();
    assert_eq!(metrics.total_requests, 0);
    assert_eq!(metrics.successful_requests, 0);
    assert_eq!(metrics.failed_requests, 0);
    assert_eq!(metrics.total_response_time_ms, 0);
}

// Edge cases, exact messages and the laws on concrete values.

#[test]
fn metrics_count_attempts() {
    let mut metrics = PriceFetcherMetrics::default();
    metrics.record_attempt(true, 120);
    metrics.record_attempt(false, 999);
    metrics.record_attempt(true, 80);
    assert_eq!(metrics.total_requests, 3);
    assert_eq!(metrics.successful_requests, 2);
    assert_eq!(metrics.failed_requests, 1);
    assert_eq!(metrics.total_response_time_ms, 200);
}

#[test]
fn metrics_batch_request_steps() {
    let mut metrics = PriceFetcherMetrics::default();
    metrics.record_request();
    metrics.record_success(40);
    metrics.record_request();
    metrics.record_failure();
    metrics.record_request();
    assert_eq!(metrics.total_requests, 3);
    assert_eq!(metrics.successful_requests, 1);
    assert_eq!(metrics.failed_requests, 1);
    assert_eq!(metrics.total_response_time_ms, 40);
}

#[test]
fn retry_delays_double() {
    // One attempt, then three retries after 500 ms, 1 s and 2 s.
    assert_eq!(delay_before_attempt(0, 3), Some(0));
    assert_eq!(delay_before_attempt(1, 3), Some(500));
    assert_eq!(delay_before_attempt(2, 3), Some(1000));
    assert_eq!(delay_before_attempt(3, 3), Some(2000));
    assert_eq!(delay_before_attempt(4, 3), None);
    assert_eq!(delay_before_attempt(0, 0), Some(0));
    assert_eq!(delay_before_attempt(1, 0), None);
    assert_eq!(delay_before_attempt(10, 11), Some(256_000));
    assert_eq!(delay_before_attempt(56, 56), Some(500 * (1u64 << 55)));
}

#[test]
fn cached_prices_are_fresh_up_to_the_ttl() {
    assert!(is_fresh(0, 10));
    assert!(is_fresh(10, 10));
    assert!(!is_fresh(11, 10));
    assert_eq!(fresh_price(Some((2.5f64, 10)), 10), Some(2.5));
    assert_eq!(fresh_price(Some((2.5f64, 11)), 10), None);
    assert_eq!(fresh_price::<f64>(None, 10), None);
}

#[test]
fn stale_price_stands_in_for_a_failed_fetch() {
    let fetched: Result<f64, AppError> = Ok(1.5);
    assert_eq!(fallback_choice(fetched, Some(9.0)).ok(), Some(1.5));

    let failed: Result<f64, AppError> = Err(AppError::PriceError("down".to_string()));
    assert_eq!(fallback_choice(failed, Some(9.0)).ok(), Some(9.0));

    let failed: Result<f64, AppError> = Err(AppError::PriceError("down".to_string()));
    match fallback_choice(failed, None) {
        Err(e) => assert_eq!(e.to_string(), "Price error: down"),
        Ok(_) => panic!("expected the fetch's error"),
    }
}

#[test]
fn refresh_loop_decisions() {
    assert_eq!(refresh_interval_nanos(60_000_000_000), 30_000_000_000);
    assert_eq!(refresh_interval_nanos(3), 1);
    assert_eq!(refresh_step(RefreshEvent::Tick), RefreshAction::FetchPrices);
    assert_eq!(refresh_step(RefreshEvent::ShutdownChanged(false)), RefreshAction::Continue);
    assert_eq!(refresh_step(RefreshEvent::ShutdownChanged(true)), RefreshAction::Stop);
}

#[test]
fn price_urls() {
    assert_eq!(
        single_price_url("https://api.coingecko.com/api/v3", "solana"),
        "https://api.coingecko.com/api/v3/simple/price?ids=solana&vs_currencies=usd"
    );
    let ids = vec!["solana".to_string(), "bonk".to_string(), "usd-coin".to_string()];
    assert_eq!(
        batch_price_url("https://api.example.com", &ids),
        "https://api.example.com/simple/price?ids=solana,bonk,usd-coin&vs_currencies=usd"
    );
    assert_eq!(
        batch_price_url("u", &vec!["a".to_string()]),
        single_price_url("u", "a")
    );
    assert_eq!(batch_price_url("u", &vec![]), "u/simple/price?ids=&vs_currencies=usd");
}

#[test]
fn tokens_to_fetch_skips_fresh_ones() {
    let ids = vec!["a".to_string(), "b".to_string(), "c".to_string()];
    assert_eq!(tokens_to_fetch(&ids, &vec![false, true, false]), vec!["a", "c"]);
    assert!(tokens_to_fetch(&ids, &vec![true, true, true]).is_empty());
    assert_eq!(tokens_to_fetch(&ids, &vec![false, false, false]), ids);
}

#[test]
fn price_error_messages() {
    assert_eq!(
        retries_exhausted("solana", 3).to_string(),
        "Price error: Failed to fetch price for solana after 3 retries"
    );
    assert_eq!(
        token_not_found("bonk").to_string(),
        "Price error: Token bonk not found in response"
    );
}

#[test]
fn batch_request_decisions() {
    let mut m = PriceFetcherMetrics::default();
    assert_eq!(after_batch_request(&mut m, BatchOutcome::SendFailed), BatchAction::FetchIndividually);
    assert_eq!((m.total_requests, m.failed_requests), (1, 1));
    assert_eq!(after_batch_request(&mut m, BatchOutcome::ErrorStatus), BatchAction::FetchIndividually);
    assert_eq!((m.total_requests, m.failed_requests), (2, 1));
    assert_eq!(after_batch_request(&mut m, BatchOutcome::Received), BatchAction::ReadBody);
    assert_eq!((m.total_requests, m.successful_requests, m.failed_requests), (3, 0, 1));
}

#[test]
fn batch_response_keeps_requested_prices_only() {
    let requested = vec!["solana".to_string(), "bonk".to_string(), "usd-coin".to_string()];
    let entries = vec![
        ("usd-coin".to_string(), 1.0f64),
        ("ethereum".to_string(), 3000.0f64),
        ("solana".to_string(), 150.0f64),
    ];
    assert_eq!(
        batch_prices(&requested, &entries),
        vec![("solana".to_string(), 150.0), ("usd-coin".to_string(), 1.0)]
    );
    assert_eq!(lookup_price(&entries, "ethereum"), Some(3000.0));
    assert_eq!(lookup_price(&entries, "bonk"), None);
    assert_eq!(batch_prices::<f64>(&requested, &Vec::new()), Vec::new());
}
