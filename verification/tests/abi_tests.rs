use meridian_contracts::abi::{
    check_abi, check_abi_compatibility, init_abi, is_compatible, read_abi, read_own_abi, AbiCompatibility,
    AbiRegistry, AbiVersion, ESCROW_V1, ESCROW_V2, RISK_POOL_V1, RISK_POOL_V2,
};

#[test]
fn version_round_trips_through_u32() {
    let v = AbiVersion::new(1, 5);
    assert_eq!(AbiVersion::from_u32(v.to_u32()), v);
}

#[test]
fn compatibility_same_major_minor_range() {
    let compat = AbiCompatibility {
        min_version: AbiVersion::new(1, 0),
        current_version: AbiVersion::new(1, 3),
    };
    assert!(compat.supports(AbiVersion::new(1, 0)));
    assert!(compat.supports(AbiVersion::new(1, 2)));
    assert!(compat.supports(AbiVersion::new(1, 3)));
    assert!(!compat.supports(AbiVersion::new(1, 4)));
    assert!(!compat.supports(AbiVersion::new(2, 0)));
}

#[test]
fn is_compatible_with_checks_major_and_minor() {
    let v = AbiVersion::new(1, 2);
    assert!(v.is_compatible_with(AbiVersion::new(1, 0)));
    assert!(v.is_compatible_with(AbiVersion::new(1, 2)));
    assert!(!v.is_compatible_with(AbiVersion::new(1, 3)));
    assert!(!v.is_compatible_with(AbiVersion::new(2, 0)));
}

#[test]
fn version_ordering() {
    assert!(AbiVersion::new(1, 1) > AbiVersion::new(1, 0));
    assert!(AbiVersion::new(2, 0) > AbiVersion::new(1, 999));
}

#[test]
fn packed_check_matches_structured_check() {
    assert!(is_compatible(RISK_POOL_V1, RISK_POOL_V2, 1_000));
    assert!(is_compatible(RISK_POOL_V1, RISK_POOL_V2, 1_001));
    assert!(!is_compatible(RISK_POOL_V1, RISK_POOL_V2, 1_002));
    assert!(!is_compatible(RISK_POOL_V1, RISK_POOL_V2, 2_000));
    assert!(check_abi(ESCROW_V1, ESCROW_V2, 1_001));
    assert!(check_abi_compatibility(1_000, 1_001, AbiVersion::new(1, 1)));
    assert!(!check_abi_compatibility(1_000, 1_001, AbiVersion::new(1, 2)));
    assert!(!check_abi_compatibility(0, 0, AbiVersion::new(1, 0)));
}

#[test]
fn registry_round_trip() {
    let reg = AbiRegistry::init_range(AbiVersion::new(1, 0), AbiVersion::new(1, 1));
    assert_eq!(reg.as_tuple(), (1_000, 1_001));
    assert!(reg.supports(AbiVersion::new(1, 1)));
    assert!(!AbiRegistry::init(AbiVersion::new(1, 0)).supports(AbiVersion::new(1, 1)));
    assert_eq!(init_abi(AbiVersion::new(1, 0), AbiVersion::new(1, 1)), (1_000, 1_001));
    let compat = read_abi(Some(1_000), Some(2_003)).unwrap();
    assert_eq!(compat.current_version, AbiVersion::new(2, 3));
    assert!(read_abi(None, Some(1)).is_none());
    assert_eq!(read_own_abi(None, Some(7)), (0, 7));
}
