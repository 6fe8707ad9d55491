use iota_addresses::builder::{search_address, Client, GetAddressesBuilder};
use iota_addresses::derive::{generate_address, Seed};
use iota_addresses::encode::{encode_decode_roundtrip, Bech32Address};
use iota_addresses::error::Error;
use iota_addresses::path::{AddressChainType, DerivationPath};

fn test_seed() -> Seed {
    let mut bytes = Vec::new();
    for i in 0..32u8 {
        bytes.push(i.wrapping_mul(7).wrapping_add(1));
    }
    Seed::from_bytes(bytes)
}

fn other_seed() -> Seed {
    Seed::from_bytes(vec![0x5a; 32])
}

#[test]
fn generate_all_four_entries_and_search() {
    let seed = test_seed();
    let all = GetAddressesBuilder::new(&seed)
        .with_account_index(0)
        .with_range(0..2)
        .with_bech32_hrp(String::from("abc"))
        .get_all()
        .unwrap();
    assert_eq!(all.len(), 4);
    assert_eq!(all[0].1, AddressChainType::External);
    assert_eq!(all[1].1, AddressChainType::Internal);
    assert_eq!(all[2].1, AddressChainType::External);
    assert_eq!(all[3].1, AddressChainType::Internal);
    // The two external addresses are distinct, and differ from their
    // internal counterparts.
    assert_ne!(all[0].0 .0, all[2].0 .0);
    assert_ne!(all[0].0 .0, all[1].0 .0);
    assert_ne!(all[2].0 .0, all[3].0 .0);
    // Searching the second external address yields index 1, external.
    let found = search_address(&seed, String::from("abc"), 0, 0..2, &all[2].0).unwrap();
    assert_eq!(found.0, 1);
    assert_eq!(found.1, AddressChainType::External);
}

#[test]
fn empty_range_gives_empty_list_and_search_fails() {
    let seed = test_seed();
    let all = GetAddressesBuilder::new(&seed)
        .with_range(0..0)
        .with_bech32_hrp(String::from("abc"))
        .get_all()
        .unwrap();
    assert!(all.is_empty());
    let target = Bech32Address(String::from("abc1notanaddress"));
    let err = search_address(&seed, String::from("abc"), 0, 0..0, &target).unwrap_err();
    assert!(matches!(err, Error::AddressNotFound { start: 0, end: 0 }));
}

#[test]
fn missing_prefix_source_fails_fast() {
    let seed = test_seed();
    let err = GetAddressesBuilder::new(&seed)
        .with_range(0..2)
        .get_all()
        .unwrap_err();
    assert!(matches!(err, Error::MissingPrefixSource));
}

#[test]
fn derivation_is_deterministic() {
    let seed = test_seed();
    let mut path = DerivationPath::build(0).unwrap();
    let first = generate_address(&seed, &mut path, 5, AddressChainType::External).unwrap();
    let second = generate_address(&seed, &mut path, 5, AddressChainType::External).unwrap();
    assert_eq!(first.bytes(), second.bytes());
    assert_eq!(first.bytes().len(), 32);
    // A different chain type or index changes the address.
    let internal = generate_address(&seed, &mut path, 5, AddressChainType::Internal).unwrap();
    let next = generate_address(&seed, &mut path, 6, AddressChainType::External).unwrap();
    assert_ne!(first.bytes(), internal.bytes());
    assert_ne!(first.bytes(), next.bytes());
}

#[test]
fn path_returns_to_template_after_derivations() {
    let seed = test_seed();
    let mut path = DerivationPath::build(3).unwrap();
    assert_eq!(path.segment_count(), 3);
    for index in 0..4 {
        generate_address(&seed, &mut path, index, AddressChainType::External).unwrap();
        generate_address(&seed, &mut path, index, AddressChainType::Internal).unwrap();
        assert_eq!(path.segment_count(), 3);
    }
}

#[test]
fn encode_decode_round_trip() {
    let seed = test_seed();
    let mut path = DerivationPath::build(0).unwrap();
    let raw = generate_address(&seed, &mut path, 0, AddressChainType::External).unwrap();
    let (back, hrp) = encode_decode_roundtrip(&raw, "abc");
    assert_eq!(back.bytes(), raw.bytes());
    assert_eq!(hrp, "abc");
    // The same through encode and decode directly.
    let encoded = Bech32Address::encode(&raw, "atoi");
    let (back2, hrp2) = encoded.decode().unwrap();
    assert_eq!(back2.bytes(), raw.bytes());
    assert_eq!(hrp2, "atoi");
    // A string nothing encodes to does not decode.
    assert!(Bech32Address(String::from("abc1notanaddress")).decode().is_none());
}

#[test]
fn generation_order_and_external_only() {
    let seed = test_seed();
    let all = GetAddressesBuilder::new(&seed)
        .with_account_index(1)
        .with_range(3..6)
        .with_bech32_hrp(String::from("abc"))
        .get_all()
        .unwrap();
    assert_eq!(all.len(), 6);
    for (j, entry) in all.iter().enumerate() {
        let expected = if j % 2 == 0 {
            AddressChainType::External
        } else {
            AddressChainType::Internal
        };
        assert_eq!(entry.1, expected);
    }
    let externals = GetAddressesBuilder::new(&seed)
        .with_account_index(1)
        .with_range(3..6)
        .with_bech32_hrp(String::from("abc"))
        .finish()
        .unwrap();
    assert_eq!(externals.len(), 3);
    assert_eq!(externals[0].0, all[0].0 .0);
    assert_eq!(externals[1].0, all[2].0 .0);
    assert_eq!(externals[2].0, all[4].0 .0);
}

#[test]
fn search_finds_every_generated_entry() {
    let seed = test_seed();
    let all = GetAddressesBuilder::new(&seed)
        .with_range(0..3)
        .with_bech32_hrp(String::from("abc"))
        .get_all()
        .unwrap();
    for (j, entry) in all.iter().enumerate() {
        let (count, chain_type) =
            search_address(&seed, String::from("abc"), 0, 0..3, &entry.0).unwrap();
        assert_eq!(count, (j + 1) / 2);
        assert_eq!(chain_type, entry.1);
    }
}

#[test]
fn search_misses_address_of_other_account() {
    let seed = test_seed();
    let foreign = GetAddressesBuilder::new(&seed)
        .with_account_index(7)
        .with_range(0..2)
        .with_bech32_hrp(String::from("abc"))
        .get_all()
        .unwrap();
    let err = search_address(&seed, String::from("abc"), 0, 0..2, &foreign[0].0).unwrap_err();
    assert!(matches!(err, Error::AddressNotFound { start: 0, end: 2 }));
    // A different seed also never matches.
    let err2 =
        search_address(&other_seed(), String::from("abc"), 7, 0..2, &foreign[0].0).unwrap_err();
    assert!(matches!(err2, Error::AddressNotFound { start: 0, end: 2 }));
}

#[test]
fn invalid_account_index_is_rejected() {
    let seed = test_seed();
    let err = GetAddressesBuilder::new(&seed)
        .with_account_index(0x8000_0000)
        .with_range(0..1)
        .with_bech32_hrp(String::from("abc"))
        .get_all()
        .unwrap_err();
    assert!(matches!(
        err,
        Error::InvalidAccountIndex { account_index: 0x8000_0000 }
    ));
    match DerivationPath::build(0x8000_0000) {
        Ok(_) => panic!("account index above the hardened bit must be rejected"),
        Err(e) => assert!(matches!(
            e,
            Error::InvalidAccountIndex { account_index: 0x8000_0000 }
        )),
    }
}

#[test]
fn client_prefix_resolution() {
    let seed = test_seed();
    // A client that never reported a prefix fails the request.
    let offline = Client::new(None);
    let err = GetAddressesBuilder::new(&seed)
        .with_client(&offline)
        .with_range(0..1)
        .get_all()
        .unwrap_err();
    assert!(matches!(err, Error::ConnectionFailed));
    // A connected client supplies the prefix.
    let online = Client::new(Some(String::from("atoi")));
    let all = GetAddressesBuilder::new(&seed)
        .with_client(&online)
        .with_range(0..1)
        .get_all()
        .unwrap();
    assert_eq!(all.len(), 2);
    assert!(all[0].0 .0.starts_with("atoi1"));
    // An explicit prefix wins over the client's.
    let explicit = GetAddressesBuilder::new(&seed)
        .with_client(&online)
        .with_range(0..1)
        .with_bech32_hrp(String::from("abc"))
        .get_all()
        .unwrap();
    assert!(explicit[0].0 .0.starts_with("abc1"));
}

#[test]
fn encoding_depends_on_prefix_and_payload() {
    let seed = test_seed();
    let mut path = DerivationPath::build(0).unwrap();
    let raw = generate_address(&seed, &mut path, 0, AddressChainType::External).unwrap();
    let a = Bech32Address::encode(&raw, "abc");
    let b = Bech32Address::encode(&raw, "atoi");
    assert_ne!(a.0, b.0);
    assert!(a.0.starts_with("abc1"));
    assert!(b.0.starts_with("atoi1"));
    let other = generate_address(&other_seed(), &mut path, 0, AddressChainType::External).unwrap();
    let c = Bech32Address::encode(&other, "abc");
    assert_ne!(a.0, c.0);
}
