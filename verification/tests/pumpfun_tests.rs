use datanalyzer::dex::pumpfun::PumpFunDecoder;
use datanalyzer::dex::DexDecoder;

/// Create mock account data for testing.
fn create_mock_account_data(token_reserve: u64, sol_reserve: u64) -> Vec<u8> {
    let mut data = vec![0u8; PumpFunDecoder::ACCOUNT_SIZE];

    // Set discriminator (first 8 bytes) - using a simple pattern
    data[0..8].copy_from_slice(&[0x01, 0x02, 0x03, 0x04, 0x05, 0x06, 0x07, 0x08]);

    // Set real token reserves at offset 0x18
    data[PumpFunDecoder::REAL_TOKEN_RESERVES_OFFSET..PumpFunDecoder::REAL_TOKEN_RESERVES_OFFSET + 8]
        .copy_from_slice(&token_reserve.to_le_bytes());

    // Set real SOL reserves at offset 0x20
    data[PumpFunDecoder::REAL_SOL_RESERVES_OFFSET..PumpFunDecoder::REAL_SOL_RESERVES_OFFSET + 8]
        .copy_from_slice(&sol_reserve.to_le_bytes());

    data
}

#[test]
fn test_decode_reserves_valid_data() {
    let decoder = PumpFunDecoder;
    let token_reserve = 1_000_000_000; // 1 billion tokens
    let sol_reserve = 50_000_000_000; // 50 SOL in lamports

    let account_data = create_mock_account_data(token_reserve, sol_reserve);

    let result = decoder.decode_reserves(&account_data);
    assert!(result.is_ok());

    let (decoded_token, decoded_sol) = result.unwrap();
    assert_eq!(decoded_token, token_reserve);
    assert_eq!(decoded_sol, sol_reserve);
}

#[test]
fn test_decode_reserves_zero_values() {
    let decoder = PumpFunDecoder;
    let account_data = create_mock_account_data(0, 0);

    // Zero reserves should be valid (for new or completed pools)
    let result = decoder.decode_reserves(&account_data);
    assert!(result.is_ok());

    let (token, sol) = result.unwrap();
    assert_eq!(token, 0);
    assert_eq!(sol, 0);
}

#[test]
fn pumpfun_test_validate_account_invalid_size() {
    let decoder = PumpFunDecoder;
    let invalid_data = vec![0u8; 100]; // Too small

    let result = decoder.validate_account(&invalid_data);
    assert!(result.is_err());

    let err_msg = result.unwrap_err().to_string();
    assert!(err_msg.contains("Invalid Pump.fun account size"));
    assert!(err_msg.contains("expected 256"));
    assert!(err_msg.contains("got 100"));
}

#[test]
fn test_validate_account_reserve_too_large() {
    let decoder = PumpFunDecoder;
    let excessive_reserve = PumpFunDecoder::MAX_RESERVE_VALUE + 1;
    let account_data = create_mock_account_data(excessive_reserve, 1000);

    let result = decoder.validate_account(&account_data);
    assert!(result.is_err());

    let err_msg = result.unwrap_err().to_string();
    assert!(err_msg.contains("exceeds maximum reasonable value"));
}

#[test]
fn test_decode_reserves_invalid_size() {
    let decoder = PumpFunDecoder;
    let invalid_data = vec![0u8; 50]; // Too small

    let result = decoder.decode_reserves(&invalid_data);
    assert!(result.is_err());
}

#[test]
fn test_extract_u64_valid() {
    let mut data = vec![0u8; 32];
    let value: u64 = 0x0123456789ABCDEF;
    data[8..16].copy_from_slice(&value.to_le_bytes());

    let extracted = PumpFunDecoder::extract_u64(&data, 8);
    assert!(extracted.is_some());
    assert_eq!(extracted.unwrap(), value);
}

#[test]
fn test_extract_u64_out_of_bounds() {
    let data = vec![0u8; 10];

    // Try to extract at an offset that doesn't have enough bytes
    let extracted = PumpFunDecoder::extract_u64(&data, 5);
    assert!(extracted.is_none());
}

#[test]
fn test_little_endian_decoding() {
    let decoder = PumpFunDecoder;

    // Create account data with specific little-endian values
    let mut data = vec![0u8; PumpFunDecoder::ACCOUNT_SIZE];

    // Token reserve: 0x0000000000000064 (100 in decimal)
    data[0x18..0x20].copy_from_slice(&100u64.to_le_bytes());

    // SOL reserve: 0x00000000000003E8 (1000 in decimal)
    data[0x20..0x28].copy_from_slice(&1000u64.to_le_bytes());

    let result = decoder.decode_reserves(&data);
    assert!(result.is_ok());

    let (token, sol) = result.unwrap();
    assert_eq!(token, 100);
    assert_eq!(sol, 1000);
}

#[test]
fn test_real_world_example() {
    // This test uses realistic values from a Pump.fun pool
    let decoder = PumpFunDecoder;

    // Realistic values:
    // - Token reserve: 800,000,000 tokens (800M with 6 decimals = 800 tokens)
    // - SOL reserve: 30 SOL = 30,000,000,000 lamports
    let token_reserve = 800_000_000_000_000;
    let sol_reserve = 30_000_000_000;

    let account_data = create_mock_account_data(token_reserve, sol_reserve);

    let result = decoder.decode_reserves(&account_data);
    assert!(result.is_ok());

    let (decoded_token, decoded_sol) = result.unwrap();
    assert_eq!(decoded_token, token_reserve);
    assert_eq!(decoded_sol, sol_reserve);

    // Verify price calculation would work
    let price = decoded_sol as f64 / decoded_token as f64;
    assert!(price > 0.0);
}

// Edge cases, exact messages and the laws on concrete values.

#[test]
fn pumpfun_size_error_message_is_exact() {
    let result = PumpFunDecoder.validate_account(&vec![0u8; 100]);
    assert_eq!(
        result.unwrap_err().to_string(),
        "Decoding error: Invalid Pump.fun account size: expected 256, got 100"
    );
}

#[test]
fn pumpfun_excessive_token_reserve_message_is_exact() {
    let data = create_mock_account_data(PumpFunDecoder::MAX_RESERVE_VALUE + 1, 1000);
    let err = PumpFunDecoder.decode_reserves(&data).unwrap_err();
    assert_eq!(
        err.to_string(),
        "Decoding error: Token reserve value (1000000000000000001) exceeds maximum reasonable value (1000000000000000000). Data may be corrupted."
    );
}

#[test]
fn pumpfun_excessive_sol_reserve_is_refused() {
    let data = create_mock_account_data(1000, u64::MAX);
    let err = PumpFunDecoder.decode_reserves(&data).unwrap_err();
    assert_eq!(
        err.to_string(),
        "Decoding error: SOL reserve value (18446744073709551615) exceeds maximum reasonable value (1000000000000000000). Data may be corrupted."
    );
}

#[test]
fn pumpfun_largest_real_reserves_decode() {
    let max = PumpFunDecoder::MAX_RESERVE_VALUE;
    let data = create_mock_account_data(max, max);
    assert_eq!(PumpFunDecoder.decode_reserves(&data).unwrap(), (max, max));
}

#[test]
fn pumpfun_decoding_ignores_other_bytes() {
    let mut data = create_mock_account_data(12_345, 67_890);
    for (i, b) in data.iter_mut().enumerate() {
        if !(0x18..0x28).contains(&i) {
            *b = 0xAB;
        }
    }
    assert_eq!(PumpFunDecoder.decode_reserves(&data).unwrap(), (12_345, 67_890));
}

#[test]
fn pumpfun_oversized_account_is_refused() {
    let result = PumpFunDecoder.decode_reserves(&vec![0u8; 257]);
    assert_eq!(
        result.unwrap_err().to_string(),
        "Decoding error: Invalid Pump.fun account size: expected 256, got 257"
    );
}

#[test]
fn extract_u64_reads_last_eight_bytes() {
    let data: Vec<u8> = (1u8..=10).collect();
    assert_eq!(
        PumpFunDecoder::extract_u64(&data, 2),
        Some(u64::from_le_bytes([3, 4, 5, 6, 7, 8, 9, 10]))
    );
    assert_eq!(PumpFunDecoder::extract_u64(&data, 3), None);
    assert_eq!(PumpFunDecoder::extract_u64(&[], 0), None);
    assert_eq!(PumpFunDecoder::extract_u64(&data, 11), None);
    assert_eq!(PumpFunDecoder::extract_u64(&data, usize::MAX), None);
    assert_eq!(PumpFunDecoder::extract_u64(&data, usize::MAX - 4), None);
}
