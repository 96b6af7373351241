use datanalyzer::dex::raydium::RaydiumDecoder;
use datanalyzer::dex::DexDecoder;

#[test]
fn test_validate_account_size() {
    let decoder = RaydiumDecoder;
    let valid_data = vec![0u8; RaydiumDecoder::ACCOUNT_SIZE];

    let result = decoder.validate_account(&valid_data);
    assert!(result.is_ok());
}

#[test]
fn raydium_test_validate_account_invalid_size() {
    let decoder = RaydiumDecoder;
    let invalid_data = vec![0u8; 100];

    let result = decoder.validate_account(&invalid_data);
    assert!(result.is_err());

    let err_msg = result.unwrap_err().to_string();
    assert!(err_msg.contains("Invalid Raydium account size"));
}

#[test]
fn test_decode_reserves_not_implemented() {
    let decoder = RaydiumDecoder;
    let data = vec![0u8; RaydiumDecoder::ACCOUNT_SIZE];

    let result = decoder.decode_reserves(&data);
    assert!(result.is_err());

    let err_msg = result.unwrap_err().to_string();
    assert!(err_msg.contains("not yet implemented"));
}

// Edge cases, exact messages and the laws on concrete values.

#[test]
fn raydium_messages_are_exact() {
    let err = RaydiumDecoder.decode_reserves(&vec![0u8; 751]).unwrap_err();
    assert_eq!(
        err.to_string(),
        "Decoding error: Invalid Raydium account size: expected 752, got 751"
    );
    let err = RaydiumDecoder.decode_reserves(&vec![7u8; 752]).unwrap_err();
    assert_eq!(
        err.to_string(),
        "Decoding error: Raydium decoder not yet implemented. Use Pump.fun decoder for now."
    );
}
