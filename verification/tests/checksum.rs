use hedera::entity_id::{
    compute_checksum, validate_checksums, AccountAddress, Checksum, EntityId, LedgerId,
};
use hedera::error::Error;

fn text(c: Checksum) -> String {
    String::from_utf8(c.to_bytes()).unwrap()
}

#[test]
fn mainnet_checksum_of_a_known_identifier() {
    assert_eq!(text(compute_checksum(&[0], 0, 0, 123)), "vfmkw");
}

#[test]
fn testnet_and_previewnet_checksums_of_a_known_identifier() {
    assert_eq!(text(compute_checksum(&[1], 0, 0, 123)), "esxsf");
    assert_eq!(text(compute_checksum(&[2], 0, 0, 123)), "ogizo");
}

#[test]
fn checksum_text_round_trips_and_ignores_case() {
    let lower = Checksum::from_bytes(b"vfmkw").unwrap();
    let upper = Checksum::from_bytes(b"VFMKW").unwrap();
    assert_eq!(lower, upper);
    assert_eq!(lower.to_bytes(), b"vfmkw".to_vec());
    assert_eq!(Checksum::from_bytes(b"aaaaa").unwrap().value(), 0);
    assert_eq!(Checksum::from_bytes(b"aaaab").unwrap().value(), 1);
    assert_eq!(Checksum::from_bytes(b"zzzzz").unwrap().value(), 11_881_375);
}

#[test]
fn checksum_text_of_wrong_length_or_alphabet_is_rejected() {
    assert_eq!(Checksum::from_bytes(b"vfmk"), Err(Error::BasicParse));
    assert_eq!(Checksum::from_bytes(b"vfmkwx"), Err(Error::BasicParse));
    assert_eq!(Checksum::from_bytes(b"vfmk1"), Err(Error::BasicParse));
    assert_eq!(Checksum::from_bytes(b""), Err(Error::BasicParse));
}

#[test]
fn identifier_without_checksum_parses() {
    assert_eq!(EntityId::from_bytes(b"0.0.1002"), Ok(EntityId::new(0, 0, 1002)));
    assert_eq!(EntityId::from_bytes(b"1.2.3"), Ok(EntityId::new(1, 2, 3)));
    assert_eq!(
        EntityId::from_bytes(b"0.0.18446744073709551615"),
        Ok(EntityId::new(0, 0, u64::MAX))
    );
}

#[test]
fn identifier_with_checksum_parses() {
    let id = EntityId::from_bytes(b"0.0.123-vfmkw").unwrap();
    assert_eq!(id.shard, 0);
    assert_eq!(id.realm, 0);
    assert_eq!(id.num, 123);
    assert_eq!(id.checksum, Some(Checksum::from_bytes(b"vfmkw").unwrap()));
}

#[test]
fn malformed_identifiers_are_rejected() {
    for bad in [
        &b""[..],
        b"0.0",
        b"0.0.",
        b".0.1",
        b"0..1",
        b"0.0.x",
        b"0.0.1-",
        b"0.0.1-abcd",
        b"0.0.1-abcdef",
        b"0.0.1-abc1e",
        b"0.0.18446744073709551616",
        b"0.0.1.2",
    ] {
        assert_eq!(EntityId::from_bytes(bad), Err(Error::BasicParse));
    }
}

#[test]
fn identifier_without_checksum_passes_on_every_ledger() {
    let id = EntityId::new(0, 0, 1002);
    assert_eq!(id.validate_checksum(&LedgerId::mainnet()), Ok(()));
    assert_eq!(id.validate_checksum(&LedgerId::testnet()), Ok(()));
    assert_eq!(id.validate_checksum(&LedgerId::from_bytes(vec![9, 9])), Ok(()));
}

#[test]
fn checksum_computed_under_a_ledger_validates_there_and_fails_elsewhere() {
    let mainnet = LedgerId::mainnet();
    let testnet = LedgerId::testnet();
    let sum = compute_checksum(&[0], 0, 0, 1002);
    let id = EntityId::new(0, 0, 1002).with_checksum(sum);
    assert_eq!(id.validate_checksum(&mainnet), Ok(()));
    let expected = compute_checksum(&[1], 0, 0, 1002);
    assert_ne!(expected, sum);
    assert_eq!(
        id.validate_checksum(&testnet),
        Err(Error::BadEntityIdChecksum { shard: 0, realm: 0, num: 1002, expected, actual: sum })
    );
}

#[test]
fn wrong_checksum_on_mainnet_names_both_checksums() {
    let id = EntityId::from_bytes(b"0.0.1002-vfmkw").unwrap();
    let expected = compute_checksum(&[0], 0, 0, 1002);
    let actual = Checksum::from_bytes(b"vfmkw").unwrap();
    assert_ne!(expected, actual);
    match id.validate_checksum(&LedgerId::mainnet()) {
        Err(Error::BadEntityIdChecksum { shard, realm, num, expected: e, actual: a }) => {
            assert_eq!((shard, realm, num), (0, 0, 1002));
            assert_eq!(e, expected);
            assert_eq!(text(a), "vfmkw");
        }
        other => panic!("unexpected result {:?}", other),
    }
}

#[test]
fn ledgers_with_equal_sums_share_checksums() {
    assert_eq!(compute_checksum(&[0], 0, 0, 1002), compute_checksum(&[0, 0], 0, 0, 1002));
}

#[test]
fn list_validation_reports_the_first_failure() {
    let mainnet = LedgerId::mainnet();
    let good = EntityId::from_bytes(b"0.0.123-vfmkw").unwrap();
    let bad_one = EntityId::from_bytes(b"0.0.5-vfmkw").unwrap();
    let bad_two = EntityId::from_bytes(b"0.0.6-vfmkw").unwrap();
    assert_eq!(validate_checksums(&vec![], &mainnet), Ok(()));
    assert_eq!(validate_checksums(&vec![good, EntityId::new(0, 0, 7)], &mainnet), Ok(()));
    assert_eq!(
        validate_checksums(&vec![good, bad_one, bad_two], &mainnet),
        bad_one.validate_checksum(&mainnet)
    );
    assert!(bad_one.validate_checksum(&mainnet).is_err());
}

#[test]
fn same_compares_all_parts() {
    let a = EntityId::from(5);
    assert!(a.same(&EntityId::new(0, 0, 5)));
    assert!(!a.same(&EntityId::new(0, 1, 5)));
    assert!(!a.same(&a.with_checksum(Checksum::from_bytes(b"aaaaa").unwrap())));
    assert_eq!(AccountAddress::from(a), AccountAddress::AccountId(a));
}

#[test]
fn identifier_text_is_written_as_it_is_read() {
    assert_eq!(EntityId::new(0, 0, 1002).to_bytes(), b"0.0.1002".to_vec());
    assert_eq!(EntityId::new(10, 200, 0).to_bytes(), b"10.200.0".to_vec());
    assert_eq!(
        EntityId::new(0, 0, u64::MAX).to_bytes(),
        b"0.0.18446744073709551615".to_vec()
    );
    let id = EntityId::from_bytes(b"0.0.123-VFMKW").unwrap();
    assert_eq!(id.to_bytes(), b"0.0.123-vfmkw".to_vec());
    assert_eq!(EntityId::from_bytes(&id.to_bytes()), Ok(id));
}

#[test]
fn evm_address_text_is_forty_hexadecimal_digits() {
    let text = b"1.2.00112233445566778899aAbBcCdDeEfF01020304";
    let address = AccountAddress::from_bytes(text).unwrap();
    let bytes = [
        0x00, 0x11, 0x22, 0x33, 0x44, 0x55, 0x66, 0x77, 0x88, 0x99, 0xaa, 0xbb, 0xcc, 0xdd, 0xee,
        0xff, 0x01, 0x02, 0x03, 0x04,
    ];
    assert_eq!(address, AccountAddress::EvmAddress { shard: 1, realm: 2, address: bytes });
    assert_eq!(address.to_bytes(), b"1.2.00112233445566778899aabbccddeeff01020304".to_vec());
    assert_eq!(AccountAddress::from_bytes(&address.to_bytes()), Ok(address));
    assert_eq!(
        AccountAddress::from_bytes(b"x.2.00112233445566778899aabbccddeeff01020304"),
        Err(Error::BasicParse)
    );
    assert_eq!(
        AccountAddress::from_bytes(b"1.2.00112233445566778899aabbccddeeff0102030g"),
        Err(Error::BasicParse)
    );
}

#[test]
fn other_address_text_is_an_identifier() {
    assert_eq!(
        AccountAddress::from_bytes(b"0.0.1001"),
        Ok(AccountAddress::AccountId(EntityId::new(0, 0, 1001)))
    );
    let with_sum = AccountAddress::from_bytes(b"0.0.123-vfmkw").unwrap();
    assert_eq!(with_sum, AccountAddress::AccountId(EntityId::from_bytes(b"0.0.123-vfmkw").unwrap()));
    assert_eq!(with_sum.to_bytes(), b"0.0.123-vfmkw".to_vec());
    assert_eq!(AccountAddress::from_bytes(b"0.0"), Err(Error::BasicParse));
    assert_eq!(AccountAddress::from_bytes(b"0.0.12ab"), Err(Error::BasicParse));
}
