use parity_scale_codec::Encode;
use pistis::business::{
    Business, BusinessConfig, BusinessError, BusinessEvent, Product, ProductInfo, Registry,
};
use pistis::error::ErrorKind;
use pistis::hash::{business_hash, product_hash, subnode_hash, H256};
use pistis::name_service::{NameService, NameServiceConfig, Origin};
use sp_crypto_hashing::blake2_256;

const SCOPE: &str = "pistis";
const OWNER: &str = "longguhu";
const ALICE: &str = "alice";
const BOB: &str = "bob";
const RAY: &str = "ray";

fn label(s: &str) -> H256 {
    H256(blake2_256(&s.encode()))
}

fn root() -> H256 {
    H256([0u8; 32])
}

/// The identity `name` directly under the root.
fn ident(name: &str) -> H256 {
    subnode_hash(&root(), &label(name))
}

/// The scope resolves to 1, the business owner to 2, alice to 3, bob to 4
/// and ray to 100.
fn resolver() -> NameService {
    let mut ns = NameService::new(NameServiceConfig {
        min_name_length: 3,
        max_name_length: 16,
        max_zone_length: 1024,
        force_origins: vec![1],
    });
    assert_eq!(ns.set_root_owner(Origin::Root, 1000), Ok(()));
    for (name, account) in [(SCOPE, 1), (OWNER, 2), (ALICE, 3), (BOB, 4), (RAY, 100)] {
        assert_eq!(ns.set_subnode_owner(1000, root(), label(name), 1000), Ok(()));
        assert_eq!(ns.set_resolve_addr(1000, ident(name), account), Ok(()));
    }
    ns
}

fn config() -> BusinessConfig {
    BusinessConfig {
        min_length: 3,
        max_length: 16,
        max_zone_length: 1024,
        scope_name_hash: ident(SCOPE),
        max_seq_id_length: 64,
        max_extra_length: 1024,
        max_product_info_count: 10,
    }
}

fn seed() -> H256 {
    H256([7u8; 32])
}

/// A ledger holding the business "crab" of the owner identity, created at
/// height 10 and expiring at 20.
fn with_business(ns: &NameService) -> (Registry, H256) {
    let mut reg = Registry::new(config());
    let biz = reg
        .create_business(ns, 1, 10, &seed(), ident(OWNER), b"crab".to_vec(), 20)
        .unwrap();
    (reg, biz)
}

const EXTRA: &str = r#"{"amount":10000,"type":"btc","public_key":"1LrMVQmmEvJXsTmrXuarGrikk5nnB5Cvwg"}"#;

#[test]
fn create_business_should_work() {
    let ns = resolver();
    let mut reg = Registry::new(config());
    let owner = ident(OWNER);
    assert_eq!(
        reg.create_business(&ns, 2, 0, &seed(), owner, b"crab".to_vec(), 10),
        Err(BusinessError::NotAuthorized)
    );
    assert_eq!(
        reg.create_business(&ns, 1, 0, &seed(), owner, b"c".to_vec(), 10),
        Err(BusinessError::NameTooShort)
    );
    assert_eq!(
        reg.create_business(&ns, 1, 0, &seed(), owner, "c".repeat(17).into_bytes(), 10),
        Err(BusinessError::NameTooLong)
    );
    assert_eq!(
        reg.create_business(&ns, 1, 10, &seed(), owner, b"crab".to_vec(), 10),
        Err(BusinessError::Expired)
    );
    let expected = business_hash(&seed(), 1, &owner, reg.current_nonce());
    assert_eq!(reg.create_business(&ns, 1, 10, &seed(), owner, b"crab".to_vec(), 20), Ok(expected));
    assert_eq!(reg.business_of(&expected).unwrap().creator, 1);
}

#[test]
fn set_business_expiration_should_work() {
    let ns = resolver();
    let mut reg = Registry::new(config());
    let unknown = H256([0u8; 32]);
    assert_eq!(reg.set_business_expiration(&ns, 2, unknown, 10), Err(BusinessError::NotAuthorized));
    assert_eq!(
        reg.set_business_expiration(&ns, 1, unknown, 10),
        Err(BusinessError::BusinessNotFound)
    );
    let biz = reg
        .create_business(&ns, 1, 10, &seed(), ident(OWNER), b"crab".to_vec(), 20)
        .unwrap();
    assert_eq!(reg.set_business_expiration(&ns, 1, biz, 20), Err(BusinessError::SameExpiration));
    // The new expiration is only required to differ from the current one.
    assert_eq!(reg.set_business_expiration(&ns, 1, biz, 10), Ok(()));
    assert_eq!(reg.set_business_expiration(&ns, 1, biz, 15), Ok(()));
    assert_eq!(reg.set_business_expiration(&ns, 1, biz, 25), Ok(()));
    assert_eq!(reg.business_of(&biz).unwrap().expiration, 25);
}

#[test]
fn business_whitelist_should_work() {
    let ns = resolver();
    let (alice, bob, ray) = (ident(ALICE), ident(BOB), ident(RAY));
    let mut empty = Registry::new(config());
    assert_eq!(
        empty.add_business_whitelist(&ns, 1, H256([0u8; 32]), alice),
        Err(BusinessError::BusinessNotFound)
    );

    let (mut reg, biz) = with_business(&ns);
    assert_eq!(reg.add_business_whitelist(&ns, 3, biz, alice), Err(BusinessError::NotAuthorized));
    assert_eq!(reg.add_business_whitelist(&ns, 2, biz, alice), Ok(()));
    assert_eq!(
        reg.add_business_whitelist(&ns, 2, biz, alice),
        Err(BusinessError::AlreadyInWhitelist)
    );
    assert_eq!(reg.add_business_whitelist(&ns, 2, biz, bob), Ok(()));
    assert_eq!(reg.business_of(&biz).unwrap().whitelist, vec![alice, bob]);
    assert_eq!(
        reg.remove_business_whitelist(&ns, 2, biz, ray),
        Err(BusinessError::NotInWhitelist)
    );
    assert_eq!(reg.remove_business_whitelist(&ns, 2, biz, alice), Ok(()));
    assert_eq!(reg.remove_business_whitelist(&ns, 2, biz, bob), Ok(()));
    assert_eq!(reg.business_of(&biz).unwrap().whitelist, Vec::<H256>::new());
}

#[test]
fn product_should_work() {
    let ns = resolver();
    let (alice, bob) = (ident(ALICE), ident(BOB));
    let data_hash = label("I have a secret, haha~");
    let extra = EXTRA.as_bytes().to_vec();
    let seq_id = "1".repeat(64).into_bytes();

    let mut empty = Registry::new(config());
    let unknown = H256([0u8; 32]);
    assert_eq!(
        empty.create_product(&ns, 3, 0, bob, unknown, seq_id.clone(), data_hash, extra.clone()),
        Err(BusinessError::NotAuthorized)
    );
    assert_eq!(
        empty.create_product(&ns, 3, 0, alice, unknown, seq_id.clone(), data_hash, extra.clone()),
        Err(BusinessError::BusinessNotFound)
    );

    let (mut reg, biz) = with_business(&ns);
    assert_eq!(
        reg.create_product(&ns, 3, 10, alice, biz, seq_id.clone(), data_hash, extra.clone()),
        Err(BusinessError::NotWhitelisted)
    );
    assert_eq!(reg.add_business_whitelist(&ns, 2, biz, alice), Ok(()));
    assert_eq!(
        reg.create_product(&ns, 3, 20, alice, biz, seq_id.clone(), data_hash, extra.clone()),
        Err(BusinessError::Expired)
    );
    assert_eq!(
        reg.create_product(&ns, 3, 15, alice, biz, "1".repeat(65).into_bytes(), data_hash, extra.clone()),
        Err(BusinessError::SeqIdTooLong)
    );
    assert_eq!(
        reg.create_product(&ns, 3, 15, alice, biz, seq_id.clone(), data_hash, "e".repeat(1025).into_bytes()),
        Err(BusinessError::ExtraTooLong)
    );
    let key = product_hash(&biz, &seq_id);
    assert_eq!(
        reg.create_product(&ns, 3, 15, alice, biz, seq_id.clone(), data_hash, extra.clone()),
        Ok(key)
    );
    assert_eq!(
        reg.create_product(&ns, 3, 15, alice, biz, seq_id.clone(), data_hash, extra.clone()),
        Err(BusinessError::ProductExists)
    );
    assert_eq!(reg.product_of(&key).unwrap().seq_id, seq_id);
    assert_eq!(reg.product_of(&key).unwrap().infos.len(), 1);
    assert_eq!(reg.product_of(&key).unwrap().infos[0].data_hash, data_hash);

    assert_eq!(reg.add_business_whitelist(&ns, 2, biz, bob), Ok(()));
    assert_eq!(
        reg.add_product_info(&ns, 3, 15, bob, biz, seq_id.clone(), data_hash, extra.clone()),
        Err(BusinessError::NotAuthorized)
    );
    assert_eq!(
        reg.add_product_info(&ns, 4, 15, bob, biz, seq_id.clone(), data_hash, extra.clone()),
        Ok(())
    );
    assert_eq!(reg.product_of(&key).unwrap().infos.len(), 2);
}

#[test]
fn short_business_name_is_invalid() {
    let ns = resolver();
    let mut reg = Registry::new(config());
    let err = reg.create_business(&ns, 1, 0, &seed(), ident(OWNER), b"c".to_vec(), 10).unwrap_err();
    assert_eq!(err, BusinessError::NameTooShort);
    assert_eq!(err.kind(), ErrorKind::InvalidInput);
    assert_eq!(reg.current_nonce(), 0);
    assert!(reg.event_log().is_empty());
}

#[test]
fn business_created_at_height_ten_records_its_creator() {
    let ns = resolver();
    let (reg, biz) = with_business(&ns);
    let b: &Business = reg.business_of(&biz).unwrap();
    assert_eq!(b.creator, 1);
    assert_eq!(b.owner, ident(OWNER));
    assert_eq!(b.name, b"crab".to_vec());
    assert!(b.whitelist.is_empty());
    assert_eq!(b.expiration, 20);
    assert_eq!(reg.current_nonce(), 1);
    assert!(matches!(reg.event_log()[0], BusinessEvent::BusinessCreated(1, h) if h == biz));
}

#[test]
fn second_whitelist_admission_is_refused() {
    let ns = resolver();
    let (mut reg, biz) = with_business(&ns);
    assert_eq!(reg.add_business_whitelist(&ns, 2, biz, ident(ALICE)), Ok(()));
    let err = reg.add_business_whitelist(&ns, 2, biz, ident(ALICE)).unwrap_err();
    assert_eq!(err, BusinessError::AlreadyInWhitelist);
    assert_eq!(err.kind(), ErrorKind::AlreadyExists);
    assert_eq!(reg.business_of(&biz).unwrap().whitelist, vec![ident(ALICE)]);
}

#[test]
fn sequence_id_of_sixty_five_bytes_is_invalid() {
    let ns = resolver();
    let (mut reg, biz) = with_business(&ns);
    assert_eq!(reg.add_business_whitelist(&ns, 2, biz, ident(ALICE)), Ok(()));
    let err = reg
        .create_product(&ns, 3, 15, ident(ALICE), biz, vec![b'1'; 65], label("d"), Vec::new())
        .unwrap_err();
    assert_eq!(err, BusinessError::SeqIdTooLong);
    assert_eq!(err.kind(), ErrorKind::InvalidInput);
    assert_eq!(
        reg.create_product(&ns, 3, 15, ident(ALICE), biz, vec![b'1'; 64], label("d"), Vec::new()),
        Ok(product_hash(&biz, &vec![b'1'; 64]))
    );
}

#[test]
fn product_info_from_unresolved_caller_is_refused() {
    let ns = resolver();
    let (mut reg, biz) = with_business(&ns);
    let bob = ident(BOB);
    assert_eq!(reg.add_business_whitelist(&ns, 2, biz, bob), Ok(()));
    assert!(reg.create_product(&ns, 4, 12, bob, biz, b"lot".to_vec(), label("d"), Vec::new()).is_ok());
    let err = reg
        .add_product_info(&ns, 3, 12, bob, biz, b"lot".to_vec(), label("d"), Vec::new())
        .unwrap_err();
    assert_eq!(err, BusinessError::NotAuthorized);
    assert_eq!(err.kind(), ErrorKind::Unauthorized);
    // An identity that resolves to nothing authorizes nobody.
    assert_eq!(
        reg.add_product_info(&ns, 4, 12, label(BOB), biz, b"lot".to_vec(), label("d"), Vec::new()),
        Err(BusinessError::NotAuthorized)
    );
}

#[test]
fn nonces_separate_business_hashes() {
    let ns = resolver();
    let mut reg = Registry::new(config());
    let a = reg.create_business(&ns, 1, 0, &seed(), ident(OWNER), b"crab".to_vec(), 20).unwrap();
    let b = reg.create_business(&ns, 1, 0, &seed(), ident(OWNER), b"crab".to_vec(), 20).unwrap();
    assert_ne!(a, b);
    assert_eq!(b, business_hash(&seed(), 1, &ident(OWNER), 1));
    assert_eq!(reg.current_nonce(), 2);
}

#[test]
fn colliding_business_is_refused() {
    let ns = resolver();
    let (mut reg, biz) = with_business(&ns);
    let copy = Business {
        creator: 9,
        owner: ident(ALICE),
        name: b"other".to_vec(),
        whitelist: Vec::new(),
        expiration: 99,
    };
    assert_eq!(reg.insert_business(biz, &copy), Err(BusinessError::BusinessExists));
    assert_eq!(reg.business_of(&biz).unwrap().creator, 1);
    let fresh = H256([5u8; 32]);
    assert_eq!(reg.insert_business(fresh, &copy), Ok(()));
    assert_eq!(reg.business_of(&fresh).unwrap().expiration, 99);
}

#[test]
fn recreated_product_is_refused_after_other_calls() {
    let ns = resolver();
    let (mut reg, biz) = with_business(&ns);
    let alice = ident(ALICE);
    assert_eq!(reg.add_business_whitelist(&ns, 2, biz, alice), Ok(()));
    assert!(reg.create_product(&ns, 3, 11, alice, biz, b"s".to_vec(), label("d"), Vec::new()).is_ok());
    assert!(reg.create_product(&ns, 3, 11, alice, biz, b"t".to_vec(), label("d"), Vec::new()).is_ok());
    assert_eq!(reg.add_product_info(&ns, 3, 12, alice, biz, b"s".to_vec(), label("e"), Vec::new()), Ok(()));
    assert_eq!(
        reg.create_product(&ns, 3, 13, alice, biz, b"s".to_vec(), label("d"), Vec::new()),
        Err(BusinessError::ProductExists)
    );
}

#[test]
fn whitelisting_admits_immediately_and_removal_revokes() {
    let ns = resolver();
    let (mut reg, biz) = with_business(&ns);
    let alice = ident(ALICE);
    assert_eq!(
        reg.create_product(&ns, 3, 11, alice, biz, b"s".to_vec(), label("d"), Vec::new()),
        Err(BusinessError::NotWhitelisted)
    );
    assert_eq!(
        reg.add_product_info(&ns, 3, 11, alice, biz, b"s".to_vec(), label("d"), Vec::new()),
        Err(BusinessError::NotWhitelisted)
    );
    assert_eq!(reg.add_business_whitelist(&ns, 2, biz, alice), Ok(()));
    assert!(reg.create_product(&ns, 3, 11, alice, biz, b"s".to_vec(), label("d"), Vec::new()).is_ok());
    assert_eq!(reg.add_product_info(&ns, 3, 11, alice, biz, b"s".to_vec(), label("d"), Vec::new()), Ok(()));
    assert_eq!(reg.remove_business_whitelist(&ns, 2, biz, alice), Ok(()));
    assert_eq!(
        reg.add_product_info(&ns, 3, 11, alice, biz, b"s".to_vec(), label("d"), Vec::new()),
        Err(BusinessError::NotWhitelisted)
    );
}

#[test]
fn expired_business_stays_expired() {
    let ns = resolver();
    let (mut reg, biz) = with_business(&ns);
    let alice = ident(ALICE);
    assert_eq!(reg.add_business_whitelist(&ns, 2, biz, alice), Ok(()));
    assert!(reg.create_product(&ns, 3, 19, alice, biz, b"s".to_vec(), label("d"), Vec::new()).is_ok());
    for height in [20u64, 21, 1000, u64::MAX] {
        assert_eq!(
            reg.create_product(&ns, 3, height, alice, biz, b"t".to_vec(), label("d"), Vec::new()),
            Err(BusinessError::Expired)
        );
        assert_eq!(
            reg.add_product_info(&ns, 3, height, alice, biz, b"s".to_vec(), label("d"), Vec::new()),
            Err(BusinessError::Expired)
        );
    }
}

#[test]
fn product_history_is_bounded() {
    let ns = resolver();
    let (mut reg, biz) = with_business(&ns);
    let alice = ident(ALICE);
    assert_eq!(reg.add_business_whitelist(&ns, 2, biz, alice), Ok(()));
    let key = reg.create_product(&ns, 3, 11, alice, biz, b"s".to_vec(), label("d"), Vec::new()).unwrap();
    for i in 1..10u64 {
        assert_eq!(
            reg.add_product_info(&ns, 3, 11 + i % 5, alice, biz, b"s".to_vec(), label("d"), Vec::new()),
            Ok(())
        );
    }
    assert_eq!(reg.product_of(&key).unwrap().infos.len(), 10);
    assert_eq!(
        reg.add_product_info(&ns, 3, 11, alice, biz, b"s".to_vec(), label("d"), Vec::new()),
        Err(BusinessError::InfoLimitExceeded)
    );
    assert_eq!(reg.product_of(&key).unwrap().infos.len(), 10);
}

#[test]
fn product_records_keep_creator_height_and_extra() {
    let ns = resolver();
    let (mut reg, biz) = with_business(&ns);
    let (alice, bob) = (ident(ALICE), ident(BOB));
    assert_eq!(reg.add_business_whitelist(&ns, 2, biz, alice), Ok(()));
    assert_eq!(reg.add_business_whitelist(&ns, 2, biz, bob), Ok(()));
    let key = reg.create_product(&ns, 3, 11, alice, biz, b"s".to_vec(), label("a"), b"x".to_vec()).unwrap();
    assert_eq!(reg.add_product_info(&ns, 4, 13, bob, biz, b"s".to_vec(), label("b"), b"yz".to_vec()), Ok(()));
    let p: &Product = reg.product_of(&key).unwrap();
    let first: &ProductInfo = &p.infos[0];
    assert_eq!((first.creator, first.created_at, first.data_hash), (3, 11, label("a")));
    assert_eq!(first.extra, b"x".to_vec());
    let second = &p.infos[1];
    assert_eq!((second.creator, second.created_at, second.data_hash), (4, 13, label("b")));
    assert_eq!(second.extra, b"yz".to_vec());
}

#[test]
fn product_index_counts_products_in_order() {
    let ns = resolver();
    let (mut reg, biz) = with_business(&ns);
    let alice = ident(ALICE);
    assert_eq!(reg.add_business_whitelist(&ns, 2, biz, alice), Ok(()));
    assert_eq!(reg.product_count(&biz), 0);
    assert_eq!(reg.business_product_index(&biz, 0), None);
    let first = reg.create_product(&ns, 3, 11, alice, biz, b"a".to_vec(), label("d"), Vec::new()).unwrap();
    let second = reg.create_product(&ns, 3, 11, alice, biz, b"b".to_vec(), label("d"), Vec::new()).unwrap();
    assert_eq!(reg.product_count(&biz), 2);
    assert_eq!(reg.business_product_index(&biz, 0), Some(first));
    assert_eq!(reg.business_product_index(&biz, 1), Some(second));
    assert_eq!(reg.business_product_index(&biz, 2), None);
    assert_eq!(reg.product_count(&H256([3u8; 32])), 0);
}

#[test]
fn add_info_to_missing_product_is_refused() {
    let ns = resolver();
    let (mut reg, biz) = with_business(&ns);
    let alice = ident(ALICE);
    assert_eq!(reg.add_business_whitelist(&ns, 2, biz, alice), Ok(()));
    assert_eq!(
        reg.add_product_info(&ns, 3, 11, alice, biz, b"none".to_vec(), label("d"), Vec::new()),
        Err(BusinessError::ProductNotFound)
    );
}

#[test]
fn append_checks_sequence_id_and_limit() {
    let ns = resolver();
    let (mut reg, biz) = with_business(&ns);
    let key = product_hash(&biz, &b"s".to_vec());
    let info = ProductInfo { creator: 3, created_at: 11, data_hash: label("d"), extra: Vec::new() };
    let product = Product { seq_id: b"s".to_vec(), infos: vec![info.clone()] };
    assert_eq!(reg.append_product_info(key, &b"s".to_vec(), info.clone()), Err(BusinessError::ProductNotFound));
    assert_eq!(reg.insert_product(biz, key, &product), Ok(()));
    assert_eq!(reg.insert_product(biz, key, &product), Err(BusinessError::ProductExists));
    assert_eq!(reg.append_product_info(key, &b"t".to_vec(), info.clone()), Err(BusinessError::SeqIdMismatch));
    assert_eq!(reg.append_product_info(key, &b"s".to_vec(), info), Ok(()));
    assert_eq!(reg.product_of(&key).unwrap().infos.len(), 2);
    assert_eq!(reg.product_count(&biz), 1);
}

#[test]
fn zero_info_limit_refuses_every_append() {
    let ns = resolver();
    let mut cfg = config();
    cfg.max_product_info_count = 0;
    let mut reg = Registry::new(cfg);
    let biz = reg.create_business(&ns, 1, 10, &seed(), ident(OWNER), b"crab".to_vec(), 20).unwrap();
    assert_eq!(reg.add_business_whitelist(&ns, 2, biz, ident(ALICE)), Ok(()));
    let key = reg.create_product(&ns, 3, 11, ident(ALICE), biz, b"s".to_vec(), label("d"), Vec::new()).unwrap();
    assert_eq!(reg.product_of(&key).unwrap().infos.len(), 1);
    assert_eq!(
        reg.add_product_info(&ns, 3, 11, ident(ALICE), biz, b"s".to_vec(), label("d"), Vec::new()),
        Err(BusinessError::InfoLimitExceeded)
    );
}

#[test]
fn expiration_change_needs_scope_and_whitelist_needs_owner() {
    let ns = resolver();
    let (mut reg, biz) = with_business(&ns);
    assert_eq!(reg.set_business_expiration(&ns, 2, biz, 30), Err(BusinessError::NotAuthorized));
    assert_eq!(reg.add_business_whitelist(&ns, 1, biz, ident(ALICE)), Err(BusinessError::NotAuthorized));
    assert_eq!(reg.remove_business_whitelist(&ns, 1, biz, ident(ALICE)), Err(BusinessError::NotAuthorized));
    assert_eq!(
        reg.remove_business_whitelist(&ns, 2, H256([4u8; 32]), ident(ALICE)),
        Err(BusinessError::BusinessNotFound)
    );
}

#[test]
fn validators_compare_identity_and_height() {
    let ns = resolver();
    assert_eq!(Registry::validate_authorization(&ns, 3, &ident(ALICE)), Ok(()));
    assert_eq!(Registry::validate_authorization(&ns, 4, &ident(ALICE)), Err(BusinessError::NotAuthorized));
    assert_eq!(Registry::validate_authorization(&ns, 3, &label(ALICE)), Err(BusinessError::NotAuthorized));
    assert_eq!(Registry::validate_expiration(9, 10), Ok(()));
    assert_eq!(Registry::validate_expiration(10, 10), Err(BusinessError::Expired));
    assert_eq!(Registry::validate_expiration(11, 10), Err(BusinessError::Expired));
}

#[test]
fn hashes_follow_their_encodings() {
    let biz = H256([2u8; 32]);
    let seq_id = vec![b'1'; 64];
    // 64 items take the two-byte compact prefix 64 * 4 + 1.
    let mut bytes = biz.0.to_vec();
    bytes.extend_from_slice(&[0x01, 0x01]);
    bytes.extend_from_slice(&seq_id);
    assert_eq!(product_hash(&biz, &seq_id), H256(blake2_256(&bytes)));

    let short = b"ab".to_vec();
    let mut bytes = biz.0.to_vec();
    bytes.push(8);
    bytes.extend_from_slice(&short);
    assert_eq!(product_hash(&biz, &short), H256(blake2_256(&bytes)));

    let (seed, owner) = (H256([7u8; 32]), H256([9u8; 32]));
    let mut bytes = seed.0.to_vec();
    bytes.extend_from_slice(&258u64.to_le_bytes());
    bytes.extend_from_slice(&owner.0);
    bytes.extend_from_slice(&5u64.to_le_bytes());
    assert_eq!(business_hash(&seed, 258, &owner, 5), H256(blake2_256(&bytes)));
}

#[test]
fn every_ledger_refusal_has_its_class() {
    let cases = [
        (BusinessError::NotAuthorized, ErrorKind::Unauthorized),
        (BusinessError::NameTooLong, ErrorKind::InvalidInput),
        (BusinessError::Expired, ErrorKind::Expired),
        (BusinessError::BusinessExists, ErrorKind::AlreadyExists),
        (BusinessError::BusinessNotFound, ErrorKind::NotFound),
        (BusinessError::SameExpiration, ErrorKind::NoOpRejected),
        (BusinessError::NotInWhitelist, ErrorKind::NotFound),
        (BusinessError::NotWhitelisted, ErrorKind::NotWhitelisted),
        (BusinessError::ExtraTooLong, ErrorKind::InvalidInput),
        (BusinessError::ProductExists, ErrorKind::AlreadyExists),
        (BusinessError::ProductNotFound, ErrorKind::NotFound),
        (BusinessError::SeqIdMismatch, ErrorKind::InvalidInput),
        (BusinessError::InfoLimitExceeded, ErrorKind::LimitExceeded),
        (BusinessError::CounterOverflow, ErrorKind::LimitExceeded),
        (BusinessError::NonceExhausted, ErrorKind::LimitExceeded),
    ];
    for (e, k) in cases {
        assert_eq!(e.kind(), k);
    }
}

#[test]
fn name_without_address_authorizes_nobody() {
    let mut ns = resolver();
    let carol = ident("carol");
    assert_eq!(ns.set_subnode_owner(1000, root(), label("carol"), 1000), Ok(()));
    assert_eq!(ns.set_resolve_name(1000, carol, b"carol".to_vec()), Ok(()));
    for account in [0u64, 1000] {
        assert_eq!(
            Registry::validate_authorization(&ns, account, &carol),
            Err(BusinessError::NotAuthorized)
        );
    }
    let mut reg = Registry::new(BusinessConfig { scope_name_hash: carol, ..config() });
    assert_eq!(
        reg.create_business(&ns, 0, 0, &seed(), ident(OWNER), b"crab".to_vec(), 10),
        Err(BusinessError::NotAuthorized)
    );
}
