use datanalyzer::models::{snapshot_csv_fields, validate_snapshot_reserves, DexType};

#[test]
fn test_dex_type_from_str() {
    assert_eq!("pumpfun".parse::<DexType>().unwrap(), DexType::PumpFun);
    assert_eq!("PumpFun".parse::<DexType>().unwrap(), DexType::PumpFun);
    assert_eq!("pump_fun".parse::<DexType>().unwrap(), DexType::PumpFun);
    assert_eq!("raydium".parse::<DexType>().unwrap(), DexType::Raydium);
    assert_eq!("Raydium".parse::<DexType>().unwrap(), DexType::Raydium);

    assert!("unknown".parse::<DexType>().is_err());
}

#[test]
fn test_dex_type_display() {
    assert_eq!(DexType::PumpFun.to_string(), "PumpFun");
    assert_eq!(DexType::Raydium.to_string(), "Raydium");
}

#[test]
fn test_dex_type_account_size() {
    assert_eq!(DexType::PumpFun.get_account_size(), 256);
    assert_eq!(DexType::Raydium.get_account_size(), 752);
}

// Edge cases, exact messages and the laws on concrete values.

#[test]
fn dex_type_name_roundtrip() {
    for t in [DexType::PumpFun, DexType::Raydium] {
        assert_eq!(DexType::parse_name(&t.to_string()).unwrap(), t);
    }
}

#[test]
fn dex_type_unknown_name_message() {
    let err = DexType::parse_name("Orca").unwrap_err();
    assert_eq!(err.to_string(), "Configuration error: Unknown DEX type: Orca");
    assert!(DexType::parse_name("").is_err());
    assert!(DexType::parse_name("pump fun").is_err());
    assert_eq!(DexType::parse_name("PUMP_FUN").unwrap(), DexType::PumpFun);
}

#[test]
fn dex_type_from_lowercase_name() {
    assert_eq!(DexType::from_lowercase_name("raydium", "RAYDIUM").unwrap(), DexType::Raydium);
    let err = DexType::from_lowercase_name("raydium2", "Raydium2").unwrap_err();
    assert_eq!(err.to_string(), "Configuration error: Unknown DEX type: Raydium2");
}

#[test]
fn snapshot_reserves_must_be_positive() {
    let err = validate_snapshot_reserves(0, 1000).unwrap_err();
    assert_eq!(err.to_string(), "Configuration error: Reserves cannot be zero");
    assert!(validate_snapshot_reserves(1000, 0).is_err());
    assert!(validate_snapshot_reserves(0, 0).is_err());
    assert!(validate_snapshot_reserves(1000, 2000).is_ok());
}

#[test]
fn snapshot_csv_fields_exact() {
    let row = snapshot_csv_fields("pool123", "token456", DexType::PumpFun, 1000, 2000, 1234567890);
    assert_eq!(row, vec!["pool123", "token456", "PumpFun", "1000", "2000", "1234567890"]);
    let row = snapshot_csv_fields("p", "t", DexType::Raydium, 0, u64::MAX, i64::MIN);
    assert_eq!(row[2], "Raydium");
    assert_eq!(row[3], "0");
    assert_eq!(row[4], "18446744073709551615");
    assert_eq!(row[5], "-9223372036854775808");
}
