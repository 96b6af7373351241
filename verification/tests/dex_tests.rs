use datanalyzer::address::Address;
use datanalyzer::config::PoolConfig;
use datanalyzer::dex::{create_decoder, DecoderRegistry, DecoderStats, DexDecoder};
use datanalyzer::models::DexType;
use solana_sdk::pubkey::Pubkey;

/// A fresh address, distinct from every other made here.
fn unique() -> Address {
    Address::new(Pubkey::new_unique().to_bytes())
}

/// The success rate of statistics as a percentage, as the monitor shows it.
fn success_rate(stats: &DecoderStats) -> f64 {
    let total = stats.success_count + stats.error_count;
    if total == 0 {
        return 0.0;
    }
    (stats.success_count as f64 / total as f64) * 100.0
}

fn pumpfun_data(token: u64, sol: u64) -> Vec<u8> {
    let mut data = vec![0u8; 256];
    data[0x18..0x20].copy_from_slice(&token.to_le_bytes());
    data[0x20..0x28].copy_from_slice(&sol.to_le_bytes());
    data
}

fn assert_object_safe(_decoder: &dyn DexDecoder) {}

fn assert_send_sync<T: Send + Sync>() {}

// Test that the trait is object-safe (can be used as Box<dyn DexDecoder>)
#[test]
fn test_trait_is_object_safe() {
    let _check: fn(&dyn DexDecoder) = assert_object_safe;
}

#[test]
fn test_create_decoder_pumpfun() {
    let decoder = create_decoder(DexType::PumpFun);

    // Create valid test data for PumpFun (256 bytes)
    let mut data = vec![0u8; 256];
    data[0x18..0x20].copy_from_slice(&1000u64.to_le_bytes());
    data[0x20..0x28].copy_from_slice(&2000u64.to_le_bytes());

    let result = decoder.decode_reserves(&data);
    assert!(result.is_ok());
    let (token, sol) = result.unwrap();
    assert_eq!(token, 1000);
    assert_eq!(sol, 2000);
}

#[test]
fn test_create_decoder_raydium() {
    let decoder = create_decoder(DexType::Raydium);

    // Raydium decoder validation should work
    let data = vec![0u8; 100]; // Invalid size
    let result = decoder.validate_account(&data);
    assert!(result.is_err()); // Should fail validation
}

#[test]
fn test_create_decoder_is_send_sync() {
    assert_send_sync::<Box<dyn DexDecoder>>();
}

// Test DecoderRegistry
#[test]
fn test_decoder_registry_new() {
    let registry = DecoderRegistry::new();
    assert_eq!(registry.pool_count(), 0);
}

#[test]
fn test_decoder_registry_register_pool() {
    let mut registry = DecoderRegistry::new();
    let pool_addr = unique();
    let token_mint = unique();

    let pool_config = PoolConfig::new(pool_addr, DexType::PumpFun, token_mint).unwrap();

    let result = registry.register_pool(pool_config);
    assert!(result.is_ok());
    assert_eq!(registry.pool_count(), 1);
}

#[test]
fn test_decoder_registry_get_decoder() {
    let mut registry = DecoderRegistry::new();
    let pool_addr = unique();
    let token_mint = unique();

    // Should fail for non-registered pool
    let result = registry.get_decoder(&pool_addr);
    assert!(result.is_err());

    // Register pool
    let pool_config = PoolConfig::new(pool_addr, DexType::PumpFun, token_mint).unwrap();
    registry.register_pool(pool_config).unwrap();

    // Should succeed now
    let result = registry.get_decoder(&pool_addr);
    assert!(result.is_ok());
}

#[test]
fn test_decoder_registry_decode_pool_data() {
    let mut registry = DecoderRegistry::new();
    let pool_addr = unique();
    let token_mint = unique();

    // Register a PumpFun pool
    let pool_config = PoolConfig::new(pool_addr, DexType::PumpFun, token_mint).unwrap();
    registry.register_pool(pool_config).unwrap();

    // Create valid test data for PumpFun (256 bytes)
    let mut data = vec![0u8; 256];
    data[0x18..0x20].copy_from_slice(&5000u64.to_le_bytes());
    data[0x20..0x28].copy_from_slice(&10000u64.to_le_bytes());

    // Decode using registry
    let result = registry.decode_pool_data(&pool_addr, &data);
    assert!(result.is_ok());
    let (token, sol) = result.unwrap();
    assert_eq!(token, 5000);
    assert_eq!(sol, 10000);
}

#[test]
fn test_decoder_registry_decode_unregistered_pool() {
    let mut registry = DecoderRegistry::new();
    let pool_addr = unique();
    let data = vec![0u8; 256];

    // Should fail for unregistered pool
    let result = registry.decode_pool_data(&pool_addr, &data);
    assert!(result.is_err());
}

#[test]
fn test_decoder_registry_multiple_pools() {
    let mut registry = DecoderRegistry::new();

    // Register multiple pools
    for _ in 0..5 {
        let pool_addr = unique();
        let token_mint = unique();
        let pool_config = PoolConfig::new(pool_addr, DexType::PumpFun, token_mint).unwrap();
        registry.register_pool(pool_config).unwrap();
    }

    assert_eq!(registry.pool_count(), 5);
}

#[test]
fn test_decoder_registry_default() {
    let registry = DecoderRegistry::default();
    assert_eq!(registry.pool_count(), 0);
}

// Test lazy initialization
#[test]
fn test_decoder_registry_lazy_initialization() {
    let mut registry = DecoderRegistry::new();
    let pool_addr = unique();
    let token_mint = unique();

    // Register only the pool type (no decoder created yet)
    let pool_config = PoolConfig::new(pool_addr, DexType::PumpFun, token_mint).unwrap();
    registry.register_pool_type(pool_config).unwrap();

    // Pool count should be 0 since no decoder created yet
    assert_eq!(registry.pool_count(), 0);

    // Trigger lazy creation
    let result = registry.get_or_create_decoder(&pool_addr);
    assert!(result.is_ok());

    // Now decoder should exist
    assert_eq!(registry.pool_count(), 1);
}

#[test]
fn test_decoder_registry_get_or_create_idempotent() {
    let mut registry = DecoderRegistry::new();
    let pool_addr = unique();
    let token_mint = unique();

    let pool_config = PoolConfig::new(pool_addr, DexType::PumpFun, token_mint).unwrap();
    registry.register_pool_type(pool_config).unwrap();

    // Call multiple times - should be idempotent
    registry.get_or_create_decoder(&pool_addr).unwrap();
    registry.get_or_create_decoder(&pool_addr).unwrap();
    registry.get_or_create_decoder(&pool_addr).unwrap();

    assert_eq!(registry.pool_count(), 1);
}

#[test]
fn test_decoder_registry_lazy_decode() {
    let mut registry = DecoderRegistry::new();
    let pool_addr = unique();
    let token_mint = unique();

    // Register only pool type
    let pool_config = PoolConfig::new(pool_addr, DexType::PumpFun, token_mint).unwrap();
    registry.register_pool_type(pool_config).unwrap();

    // Create valid test data
    let mut data = vec![0u8; 256];
    data[0x18..0x20].copy_from_slice(&3000u64.to_le_bytes());
    data[0x20..0x28].copy_from_slice(&6000u64.to_le_bytes());

    // Decode with lazy initialization
    let result = registry.decode_pool_data_lazy(&pool_addr, &data);
    assert!(result.is_ok());
    let (token, sol) = result.unwrap();
    assert_eq!(token, 3000);
    assert_eq!(sol, 6000);

    // Decoder should now exist
    assert_eq!(registry.pool_count(), 1);
}

#[test]
fn test_decoder_registry_lazy_without_registration() {
    let mut registry = DecoderRegistry::new();
    let pool_addr = unique();

    // Try to get or create without registering pool type
    let result = registry.get_or_create_decoder(&pool_addr);
    assert!(result.is_err());
}

// Test statistics
#[test]
fn test_decoder_stats_new() {
    let stats = DecoderStats::new();
    assert_eq!(stats.success_count, 0);
    assert_eq!(stats.error_count, 0);
    assert_eq!(stats.total_attempts(), 0);
    assert_eq!(success_rate(&stats), 0.0);
}

#[test]
fn test_decoder_stats_record_success() {
    let mut stats = DecoderStats::new();

    stats.record_success();
    assert_eq!(stats.success_count, 1);
    assert_eq!(stats.error_count, 0);
    assert!(stats.first_success_time.is_some());
    assert!(stats.last_success_time.is_some());
    assert_eq!(success_rate(&stats), 100.0);
}

#[test]
fn test_decoder_stats_record_error() {
    let mut stats = DecoderStats::new();

    stats.record_error();
    assert_eq!(stats.success_count, 0);
    assert_eq!(stats.error_count, 1);
    assert!(stats.last_error_time.is_some());
    assert_eq!(success_rate(&stats), 0.0);
}

#[test]
fn test_decoder_stats_success_rate() {
    let mut stats = DecoderStats::new();

    stats.record_success();
    stats.record_success();
    stats.record_success();
    stats.record_error();

    assert_eq!(stats.total_attempts(), 4);
    assert_eq!(success_rate(&stats), 75.0);
}

#[test]
fn test_decoder_registry_tracks_stats() {
    let mut registry = DecoderRegistry::new();
    let pool_addr = unique();
    let token_mint = unique();

    let pool_config = PoolConfig::new(pool_addr, DexType::PumpFun, token_mint).unwrap();
    registry.register_pool(pool_config).unwrap();

    // Create valid test data
    let mut data = vec![0u8; 256];
    data[0x18..0x20].copy_from_slice(&1000u64.to_le_bytes());
    data[0x20..0x28].copy_from_slice(&2000u64.to_le_bytes());

    // Successful decode
    registry.decode_pool_data(&pool_addr, &data).unwrap();

    // Check stats
    let stats = registry.get_stats(&pool_addr).unwrap();
    assert_eq!(stats.success_count, 1);
    assert_eq!(stats.error_count, 0);
}

#[test]
fn test_decoder_registry_tracks_errors() {
    let mut registry = DecoderRegistry::new();
    let pool_addr = unique();
    let token_mint = unique();

    let pool_config = PoolConfig::new(pool_addr, DexType::PumpFun, token_mint).unwrap();
    registry.register_pool(pool_config).unwrap();

    // Invalid data (too small)
    let data = vec![0u8; 50];

    // Should fail
    let _ = registry.decode_pool_data(&pool_addr, &data);

    // Check stats
    let stats = registry.get_stats(&pool_addr).unwrap();
    assert_eq!(stats.success_count, 0);
    assert_eq!(stats.error_count, 1);
}

#[test]
fn test_decoder_registry_get_all_stats() {
    let mut registry = DecoderRegistry::new();

    // Register multiple pools and use them
    for _ in 0..3 {
        let pool_addr = unique();
        let token_mint = unique();
        let pool_config = PoolConfig::new(pool_addr, DexType::PumpFun, token_mint).unwrap();
        registry.register_pool(pool_config).unwrap();

        let mut data = vec![0u8; 256];
        data[0x18..0x20].copy_from_slice(&1000u64.to_le_bytes());
        data[0x20..0x28].copy_from_slice(&2000u64.to_le_bytes());
        registry.decode_pool_data(&pool_addr, &data).unwrap();
    }

    let all_stats = registry.get_all_stats();
    assert_eq!(all_stats.len(), 3);
}

#[test]
fn test_decoder_registry_reset_stats() {
    let mut registry = DecoderRegistry::new();
    let pool_addr = unique();
    let token_mint = unique();

    let pool_config = PoolConfig::new(pool_addr, DexType::PumpFun, token_mint).unwrap();
    registry.register_pool(pool_config).unwrap();

    let mut data = vec![0u8; 256];
    data[0x18..0x20].copy_from_slice(&1000u64.to_le_bytes());
    data[0x20..0x28].copy_from_slice(&2000u64.to_le_bytes());
    registry.decode_pool_data(&pool_addr, &data).unwrap();

    // Stats should exist
    assert!(registry.get_stats(&pool_addr).is_some());

    // Reset all stats
    registry.reset_stats();

    // Stats should be gone
    assert!(registry.get_stats(&pool_addr).is_none());
}

#[test]
fn test_decoder_registry_reset_pool_stats() {
    let mut registry = DecoderRegistry::new();
    let pool_addr1 = unique();
    let pool_addr2 = unique();

    for pool_addr in [&pool_addr1, &pool_addr2] {
        let token_mint = unique();
        let pool_config = PoolConfig::new(*pool_addr, DexType::PumpFun, token_mint).unwrap();
        registry.register_pool(pool_config).unwrap();

        let mut data = vec![0u8; 256];
        data[0x18..0x20].copy_from_slice(&1000u64.to_le_bytes());
        data[0x20..0x28].copy_from_slice(&2000u64.to_le_bytes());
        registry.decode_pool_data(pool_addr, &data).unwrap();
    }

    // Both should have stats
    assert!(registry.get_stats(&pool_addr1).is_some());
    assert!(registry.get_stats(&pool_addr2).is_some());

    // Reset only pool1
    registry.reset_pool_stats(&pool_addr1);

    // Pool1 stats should be gone, pool2 should remain
    assert!(registry.get_stats(&pool_addr1).is_none());
    assert!(registry.get_stats(&pool_addr2).is_some());
}

#[test]
fn test_decoder_registry_log_stats() {
    let mut registry = DecoderRegistry::new();
    let pool_addr = unique();
    let token_mint = unique();

    let pool_config = PoolConfig::new(pool_addr, DexType::PumpFun, token_mint).unwrap();
    registry.register_pool(pool_config).unwrap();

    let mut data = vec![0u8; 256];
    data[0x18..0x20].copy_from_slice(&1000u64.to_le_bytes());
    data[0x20..0x28].copy_from_slice(&2000u64.to_le_bytes());
    registry.decode_pool_data(&pool_addr, &data).unwrap();

    // Force log should work
    let logged = registry.log_stats(true);
    assert!(logged);
}

// Edge cases, exact messages and the laws on concrete values.

#[test]
fn registry_error_messages_name_the_pool() {
    let mut registry = DecoderRegistry::new();
    let key = Pubkey::new_unique();
    let pool = Address::new(key.to_bytes());
    let err = registry.get_decoder(&pool).unwrap_err();
    assert_eq!(
        err.to_string(),
        format!("Configuration error: No decoder registered for pool: {}", key)
    );
    let err = registry.decode_pool_data(&pool, &pumpfun_data(1, 2)).unwrap_err();
    assert_eq!(
        err.to_string(),
        format!("Configuration error: No decoder registered for pool: {}", key)
    );
    let err = registry.get_or_create_decoder(&pool).unwrap_err();
    assert_eq!(
        err.to_string(),
        format!(
            "Configuration error: Pool type not registered for: {}. Call register_pool_type first.",
            key
        )
    );
    // Failed lookups leave no statistics behind.
    assert!(registry.get_stats(&pool).is_none());
    assert_eq!(registry.pool_count(), 0);
}

#[test]
fn registry_registering_a_pool_twice_counts_it_once() {
    let mut registry = DecoderRegistry::new();
    let pool = unique();
    let mint = unique();
    registry.register_pool(PoolConfig::new(pool, DexType::PumpFun, mint).unwrap()).unwrap();
    registry.register_pool(PoolConfig::new(pool, DexType::Raydium, mint).unwrap()).unwrap();
    assert_eq!(registry.pool_count(), 1);
    // The later registration decides the decoder: Raydium reserves are not supported.
    assert!(registry.decode_pool_data(&pool, &vec![0u8; 752]).is_err());
}

#[test]
fn registry_lazy_decoder_follows_registered_type() {
    let mut registry = DecoderRegistry::new();
    let pool = unique();
    registry.register_pool_type(PoolConfig::new(pool, DexType::Raydium, unique()).unwrap()).unwrap();
    let err = registry.decode_pool_data_lazy(&pool, &vec![0u8; 752]).unwrap_err();
    assert!(err.to_string().contains("not yet implemented"));
    assert_eq!(registry.pool_count(), 1);
    let stats = registry.get_stats(&pool).unwrap();
    assert_eq!((stats.success_count, stats.error_count), (0, 1));
}

#[test]
fn registry_stats_at_fixed_times() {
    let mut registry = DecoderRegistry::new();
    let pool = unique();
    registry.register_pool(PoolConfig::new(pool, DexType::PumpFun, unique()).unwrap()).unwrap();
    registry.decode_pool_data_at(&pool, &pumpfun_data(1, 2), 100).unwrap();
    registry.decode_pool_data_at(&pool, &pumpfun_data(3, 4), 200).unwrap();
    let _ = registry.decode_pool_data_at(&pool, &[0u8; 3], 250);
    let stats = registry.get_stats(&pool).unwrap();
    assert_eq!(stats.success_count, 2);
    assert_eq!(stats.error_count, 1);
    assert_eq!(stats.first_success_time, Some(100));
    assert_eq!(stats.last_success_time, Some(200));
    assert_eq!(stats.last_error_time, Some(250));
    assert_eq!(stats.total_attempts(), 3);
}

#[test]
fn registry_log_stats_interval() {
    let mut registry = DecoderRegistry::new();
    assert!(registry.log_stats_at(false, 1_000));
    assert!(!registry.log_stats_at(false, 1_299));
    assert!(registry.log_stats_at(true, 1_299));
    assert!(!registry.log_stats_at(false, 1_598));
    assert!(registry.log_stats_at(false, 1_599));
    // A clock that went back does not hold reports back.
    assert!(registry.log_stats_at(false, 10));
}

#[test]
fn registry_get_all_stats_lists_each_pool_once() {
    let mut registry = DecoderRegistry::new();
    let a = unique();
    let b = unique();
    for pool in [a, b] {
        registry.register_pool(PoolConfig::new(pool, DexType::PumpFun, unique()).unwrap()).unwrap();
    }
    for pool in [a, b, a] {
        registry.decode_pool_data(&pool, &pumpfun_data(5, 6)).unwrap();
    }
    let all = registry.get_all_stats();
    assert_eq!(all.len(), 2);
    let count_a = all.iter().find(|(k, _)| *k == a).unwrap().1.success_count;
    let count_b = all.iter().find(|(k, _)| *k == b).unwrap().1.success_count;
    assert_eq!((count_a, count_b), (2, 1));
}
