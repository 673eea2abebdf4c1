use alloy_compat::Compat;
use alloy_primitives as alloy;
use ethereum_types as eth;

const CHUNK: usize = 8;

#[test]
fn address() {
    let alloy: alloy::Address = "deadbeefdeadbeefdeadbeefdeadbeef00000000".parse().unwrap();
    assert_eq!(format!("{alloy:x}"), format!("{:x}", alloy.compat()));
    assert_eq!(alloy, alloy.compat().compat::<alloy::Address>());
}

#[test]
fn u128() {
    let alloy = alloy::U128::MAX - alloy::U128::from(1);
    let eth = eth::U128::MAX - eth::U128::from(1);
    assert_eq!(alloy, eth.compat());
    assert_eq!(eth, alloy.compat());
}

#[test]
fn bloom() {
    let mut alloy = alloy::FixedBytes::<256>::ZERO;
    for chunk in alloy.chunks_exact_mut(CHUNK) {
        chunk.copy_from_slice(b"deadbeef");
    }
    alloy
        .last_chunk_mut::<CHUNK>()
        .unwrap()
        .copy_from_slice(b"f0000000");
    let alloy = alloy::Bloom(alloy);
    assert_eq!(
        serde_json::to_value(alloy).unwrap(),
        serde_json::to_value(alloy.compat()).unwrap()
    );
}

#[test]
fn address_keeps_its_twenty_bytes() {
    let bytes: [u8; 20] = [
        0xde, 0xad, 0xbe, 0xef, 0xde, 0xad, 0xbe, 0xef, 0xde, 0xad, 0xbe, 0xef, 0xde, 0xad, 0xbe,
        0xef, 0x00, 0x00, 0x00, 0x00,
    ];
    let alloy: alloy::Address = "deadbeefdeadbeefdeadbeefdeadbeef00000000".parse().unwrap();
    let eth: eth::Address = alloy.compat();
    assert_eq!(eth.0, bytes);
    assert_eq!(format!("{eth:x}"), "deadbeefdeadbeefdeadbeefdeadbeef00000000");
    let back: alloy::Address = eth.compat();
    assert_eq!(back.0 .0, bytes);
    assert_eq!(back, alloy);
}

#[test]
fn bloom_keeps_its_bytes_both_ways() {
    let mut bytes = [0u8; 256];
    for chunk in bytes.chunks_exact_mut(CHUNK) {
        chunk.copy_from_slice(b"deadbeef");
    }
    bytes[248..].copy_from_slice(b"f0000000");
    let alloy = alloy::Bloom(alloy::FixedBytes(bytes));
    let eth: eth::Bloom = alloy.compat();
    assert_eq!(eth.0, bytes);
    assert_eq!(eth, eth::Bloom(bytes));
    let back: alloy::Bloom = eth::Bloom(bytes).compat();
    assert_eq!(back, alloy);
    assert_eq!(
        serde_json::to_value(back).unwrap(),
        serde_json::to_value(eth).unwrap()
    );
}

#[test]
fn max_u128_is_the_same_number_on_both_sides() {
    let text = "340282366920938463463374607431768211455";
    let to_eth: eth::U128 = alloy::U128::MAX.compat();
    assert_eq!(to_eth, eth::U128::MAX);
    assert_eq!(to_eth.to_string(), text);
    let to_alloy: alloy::U128 = eth::U128::MAX.compat();
    assert_eq!(to_alloy, alloy::U128::MAX);
    assert_eq!(to_alloy.to_string(), text);
}

#[test]
fn max_u128_less_one_round_trips() {
    let text = "340282366920938463463374607431768211454";
    let alloy = alloy::U128::from_str_radix(text, 10).unwrap();
    let eth = eth::U128::from_dec_str(text).unwrap();
    let there: eth::U128 = alloy.compat();
    assert_eq!(there, eth);
    assert_eq!(there.to_string(), text);
    assert_eq!(there.compat::<alloy::U128>(), alloy);
    let here: alloy::U128 = eth.compat();
    assert_eq!(here, alloy);
    assert_eq!(here.to_string(), text);
    assert_eq!(here.compat::<eth::U128>(), eth);
}
