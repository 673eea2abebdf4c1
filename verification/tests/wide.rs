use alloy_compat::Compat;
use alloy_primitives as alloy;
use ethereum_types as eth;

#[test]
fn u64_keeps_the_number() {
    let n: u64 = 0x0102_0304_0506_0708;
    let to_eth: eth::U64 = alloy::U64::from(n).compat();
    assert_eq!(to_eth, eth::U64::from(n));
    assert_eq!(to_eth.as_u64(), 72623859790382856);
    let to_alloy: alloy::U64 = eth::U64::from(n).compat();
    assert_eq!(to_alloy, alloy::U64::from(n));
    assert_eq!(to_alloy.to_string(), "72623859790382856");
}

#[test]
fn u128_keeps_the_number() {
    let n: u128 = 0x0102_0304_0506_0708_090a_0b0c_0d0e_0f10;
    let to_eth: eth::U128 = alloy::U128::from(n).compat();
    assert_eq!(to_eth, eth::U128::from(n));
    assert_eq!(to_eth.as_u128(), n);
    assert_eq!(to_eth.to_string(), "1339673755198158349044581307228491536");
    let to_alloy: alloy::U128 = eth::U128::from(n).compat();
    assert_eq!(to_alloy, alloy::U128::from(n));
    assert_eq!(to_alloy.to_string(), "1339673755198158349044581307228491536");
}

#[test]
fn u256_keeps_the_number() {
    let text = "1234567890123456789012345678901234567890123456789012345678901234567890";
    let alloy = alloy::U256::from_str_radix(text, 10).unwrap();
    let eth = eth::U256::from_dec_str(text).unwrap();
    let to_eth: eth::U256 = alloy.compat();
    assert_eq!(to_eth, eth);
    assert_eq!(to_eth.to_string(), text);
    let to_alloy: alloy::U256 = eth.compat();
    assert_eq!(to_alloy, alloy);
    assert_eq!(to_alloy.to_string(), text);
}

#[test]
fn u512_keeps_the_number() {
    let text = "1234567890123456789012345678901234567890123456789012345678901234567890\
                1234567890123456789012345678901234567890123456789012345678901234567890";
    let alloy = alloy::U512::from_str_radix(text, 10).unwrap();
    let eth = eth::U512::from_dec_str(text).unwrap();
    let to_eth: eth::U512 = alloy.compat();
    assert_eq!(to_eth, eth);
    assert_eq!(to_eth.to_string(), text);
    let to_alloy: alloy::U512 = eth.compat();
    assert_eq!(to_alloy, alloy);
    assert_eq!(to_alloy.to_string(), text);
}

#[test]
fn the_first_byte_counts_least() {
    let mut bytes = [0u8; 32];
    bytes[0] = 2;
    bytes[1] = 1;
    let to_alloy: alloy::U256 = eth::U256::from_little_endian(&bytes).compat();
    assert_eq!(to_alloy, alloy::U256::from(258));
    assert_eq!(to_alloy.to_le_bytes::<32>(), bytes);
    let to_eth: eth::U256 = alloy::U256::from_le_bytes(bytes).compat();
    assert_eq!(to_eth, eth::U256::from(258));
    assert_eq!(to_eth.low_u64(), 258);
}

#[test]
fn limbs_keep_their_places() {
    let to_eth: eth::U256 = alloy::U256::from_limbs([1, 2, 3, 4]).compat();
    assert_eq!(to_eth.0, [1, 2, 3, 4]);
    let to_alloy: alloy::U512 = eth::U512([1, 2, 3, 4, 5, 6, 7, 8]).compat();
    assert_eq!(to_alloy.into_limbs(), [1, 2, 3, 4, 5, 6, 7, 8]);
}

#[test]
fn zero_round_trips_at_every_width() {
    assert_eq!(alloy::U64::ZERO.compat::<eth::U64>(), eth::U64::zero());
    assert_eq!(alloy::U128::ZERO.compat::<eth::U128>(), eth::U128::zero());
    assert_eq!(alloy::U256::ZERO.compat::<eth::U256>(), eth::U256::zero());
    assert_eq!(alloy::U512::ZERO.compat::<eth::U512>(), eth::U512::zero());
    assert_eq!(eth::U64::zero().compat::<alloy::U64>(), alloy::U64::ZERO);
    assert_eq!(eth::U128::zero().compat::<alloy::U128>(), alloy::U128::ZERO);
    assert_eq!(eth::U256::zero().compat::<alloy::U256>(), alloy::U256::ZERO);
    assert_eq!(eth::U512::zero().compat::<alloy::U512>(), alloy::U512::ZERO);
    assert_eq!(
        alloy::U256::ZERO.compat::<eth::U256>().compat::<alloy::U256>(),
        alloy::U256::ZERO
    );
}

#[test]
fn max_round_trips_at_every_width() {
    assert_eq!(alloy::U64::MAX.compat::<eth::U64>(), eth::U64::MAX);
    assert_eq!(alloy::U128::MAX.compat::<eth::U128>(), eth::U128::MAX);
    assert_eq!(alloy::U256::MAX.compat::<eth::U256>(), eth::U256::MAX);
    assert_eq!(alloy::U512::MAX.compat::<eth::U512>(), eth::U512::MAX);
    assert_eq!(eth::U64::MAX.compat::<alloy::U64>(), alloy::U64::MAX);
    assert_eq!(eth::U128::MAX.compat::<alloy::U128>(), alloy::U128::MAX);
    assert_eq!(eth::U256::MAX.compat::<alloy::U256>(), alloy::U256::MAX);
    assert_eq!(eth::U512::MAX.compat::<alloy::U512>(), alloy::U512::MAX);
    assert_eq!(
        alloy::U64::MAX.compat::<eth::U64>().compat::<alloy::U64>(),
        alloy::U64::MAX
    );
    assert_eq!(
        eth::U512::MAX.compat::<alloy::U512>().compat::<eth::U512>(),
        eth::U512::MAX
    );
    assert_eq!(
        alloy::U256::MAX.compat::<eth::U256>().to_string(),
        "115792089237316195423570985008687907853269984665640564039457584007913129639935"
    );
}

#[test]
fn integers_round_trip_from_either_side() {
    let alloy = alloy::U256::from_limbs([0xdead_beef, 0, u64::MAX, 7]);
    let eth = eth::U256([0xdead_beef, 0, u64::MAX, 7]);
    assert_eq!(alloy.compat::<eth::U256>().compat::<alloy::U256>(), alloy);
    assert_eq!(eth.compat::<alloy::U256>().compat::<eth::U256>(), eth);
    assert_eq!(alloy.compat::<eth::U256>(), eth);
}
