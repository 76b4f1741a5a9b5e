use sealed_bid_factory::{
    build_salt_preimage, derive_salt, Address, AuctionTerms, DeployOrder, FactoryError,
    SealedBidAuctionFactory, U256,
};

fn addr(b: u8) -> Address {
    let mut bytes = [0u8; 20];
    bytes[0] = b;
    Address::from_bytes(bytes)
}

fn w(n: u64) -> U256 {
    U256::from_u64(n)
}

/// A stand-in for the host's deploy primitive: the instance address is a function of
/// the salt, as on chain.
fn place(order: &DeployOrder) -> Address {
    let mut bytes = [0u8; 20];
    bytes.copy_from_slice(&order.salt[12..32]);
    Address::from_bytes(bytes)
}

fn initialized(owner: Address) -> SealedBidAuctionFactory {
    let mut f = SealedBidAuctionFactory::genesis(vec![0u8, 97, 115, 109]);
    assert!(f.new(owner).is_ok());
    f
}

fn deploy(
    f: &mut SealedBidAuctionFactory,
    caller: Address,
    token_id: u64,
) -> Result<Address, FactoryError> {
    let order = f.create_auction(caller, addr(1), w(token_id), w(100), w(3600), w(1800), w(10))?;
    let deployed = place(&order);
    f.complete_auction(&order, Ok(deployed))
}

#[test]
fn two_deployments_get_sequential_ids() {
    let a = addr(0xa);
    let b = addr(0xb);
    let mut f = initialized(a);
    let order = f
        .create_auction(a, addr(1), w(5), w(100), w(3600), w(1800), w(10))
        .unwrap();
    assert_eq!(order.id, w(1));
    assert_eq!(order.creator, a);
    let first = f.complete_auction(&order, Ok(place(&order))).unwrap();
    assert!(!first.is_zero());
    assert_eq!(f.get_auction_count(), w(1));
    assert_eq!(f.get_auction(w(1)), first);
    assert_eq!(f.get_creator(w(1)), a);

    let order2 = f
        .create_auction(b, addr(1), w(6), w(100), w(3600), w(1800), w(10))
        .unwrap();
    assert_eq!(order2.id, w(2));
    let second = f.complete_auction(&order2, Ok(place(&order2))).unwrap();
    assert_ne!(second, first);
    assert_eq!(f.get_auction_count(), w(2));
    assert_eq!(f.get_auction(w(2)), second);
    assert_eq!(f.get_creator(w(2)), b);
    assert_eq!(f.get_auction(w(1)), first);
    assert_eq!(f.get_creator(w(1)), a);
}

#[test]
fn genesis_state_is_empty() {
    let f = SealedBidAuctionFactory::genesis(vec![1, 2, 3]);
    assert!(f.get_owner().is_zero());
    assert!(!f.is_paused());
    assert_eq!(f.get_auction_count(), w(0));
    assert_eq!(f.get_bytecode_length(), w(3));
    assert_eq!(f.instance_module(), &vec![1u8, 2, 3]);
    assert!(f.get_auction(w(1)).is_zero());
    assert!(f.get_creator(w(0)).is_zero());
}

#[test]
fn second_initialize_fails_and_keeps_owner() {
    let a = addr(0xa);
    let mut f = initialized(a);
    assert_eq!(f.get_owner(), a);
    assert!(matches!(f.new(addr(0xb)), Err(FactoryError::AlreadyInitialized)));
    assert_eq!(f.get_owner(), a);
    assert!(matches!(f.new(a), Err(FactoryError::AlreadyInitialized)));
    assert_eq!(f.get_owner(), a);
}

#[test]
fn only_owner_pauses_and_unpauses() {
    let a = addr(0xa);
    let b = addr(0xb);
    let mut f = initialized(a);
    assert!(matches!(f.pause(b), Err(FactoryError::NotOwner)));
    assert!(!f.is_paused());
    assert!(f.pause(a).is_ok());
    assert!(f.is_paused());
    assert!(f.pause(a).is_ok());
    assert!(f.is_paused());
    assert!(matches!(f.unpause(b), Err(FactoryError::NotOwner)));
    assert!(f.is_paused());
    assert!(f.unpause(a).is_ok());
    assert!(!f.is_paused());
    assert!(f.unpause(a).is_ok());
    assert!(!f.is_paused());
}

#[test]
fn paused_factory_refuses_every_request() {
    let a = addr(0xa);
    let mut f = initialized(a);
    f.pause(a).unwrap();
    assert!(matches!(deploy(&mut f, a, 5), Err(FactoryError::Paused)));
    let r = f.create_auction(a, Address::zero(), w(0), w(0), w(0), w(0), w(0));
    assert!(matches!(r, Err(FactoryError::Paused)));
    assert_eq!(f.get_auction_count(), w(0));
    f.unpause(a).unwrap();
    assert!(deploy(&mut f, a, 5).is_ok());
    assert_eq!(f.get_auction_count(), w(1));
}

#[test]
fn validation_errors_in_order() {
    let a = addr(0xa);
    let f = initialized(a);
    let z = Address::zero();
    let r = f.create_auction(a, z, w(1), w(1), w(0), w(0), w(0));
    assert!(matches!(r, Err(FactoryError::InvalidAsset)));
    let r = f.create_auction(a, addr(1), w(1), w(1), w(0), w(1), w(1));
    assert!(matches!(r, Err(FactoryError::InvalidDuration)));
    let r = f.create_auction(a, addr(1), w(1), w(1), w(1), w(0), w(1));
    assert!(matches!(r, Err(FactoryError::InvalidDuration)));
    let r = f.create_auction(a, addr(1), w(1), w(1), w(1), w(1), w(0));
    assert!(matches!(r, Err(FactoryError::InvalidDeposit)));
    let r = f.create_auction(a, addr(1), w(0), w(0), w(1), w(1), w(1));
    assert!(r.is_ok());
}

#[test]
fn failed_deployment_changes_nothing() {
    let a = addr(0xa);
    let mut f = initialized(a);
    deploy(&mut f, a, 5).unwrap();
    let order = f
        .create_auction(a, addr(1), w(6), w(100), w(3600), w(1800), w(10))
        .unwrap();
    assert_eq!(order.id, w(2));
    let payload = vec![0xdeu8, 0xad, 0xbe, 0xef];
    match f.complete_auction(&order, Err(payload.clone())) {
        Err(FactoryError::DeploymentFailed(p)) => assert_eq!(p, payload),
        other => panic!("unexpected outcome {:?}", other),
    }
    assert_eq!(f.get_auction_count(), w(1));
    assert!(f.get_auction(w(2)).is_zero());
    assert!(f.get_creator(w(2)).is_zero());
    let retry = f
        .create_auction(a, addr(1), w(6), w(100), w(3600), w(1800), w(10))
        .unwrap();
    assert_eq!(retry.id, w(2));
    assert_eq!(retry.salt, order.salt);
}

#[test]
fn unassigned_ids_read_as_empty() {
    let a = addr(0xa);
    let mut f = initialized(a);
    deploy(&mut f, a, 5).unwrap();
    assert!(f.get_auction(w(0)).is_zero());
    assert!(f.get_auction(w(2)).is_zero());
    assert!(f.get_creator(w(2)).is_zero());
    let huge = U256::from_limbs([1, 0, 0, 1]);
    assert!(f.get_auction(huge).is_zero());
    assert!(f.get_creator(huge).is_zero());
    assert!(!f.get_auction(w(1)).is_zero());
}

#[test]
fn next_id_follows_counter() {
    let a = addr(0xa);
    let mut f = initialized(a);
    assert_eq!(f.next_auction_id(), w(1));
    deploy(&mut f, a, 5).unwrap();
    deploy(&mut f, a, 6).unwrap();
    deploy(&mut f, a, 7).unwrap();
    assert_eq!(f.get_auction_count(), w(3));
    assert_eq!(f.next_auction_id(), w(4));
}

#[test]
fn initialization_keeps_earlier_deployments() {
    let a = addr(0xa);
    let b = addr(0xb);
    let mut f = SealedBidAuctionFactory::genesis(Vec::new());
    let early = deploy(&mut f, b, 5).unwrap();
    assert_eq!(f.get_auction_count(), w(1));
    f.new(a).unwrap();
    assert_eq!(f.get_owner(), a);
    assert_eq!(f.get_auction_count(), w(1));
    assert_eq!(f.get_auction(w(1)), early);
    assert_eq!(f.get_creator(w(1)), b);
    let later = deploy(&mut f, a, 9).unwrap();
    assert_eq!(f.get_auction_count(), w(2));
    assert_eq!(f.get_auction(w(1)), early);
    assert_eq!(f.get_creator(w(1)), b);
    assert_eq!(f.get_auction(w(2)), later);
    assert_eq!(f.get_creator(w(2)), a);
}

fn terms(token_id: u64) -> AuctionTerms {
    AuctionTerms {
        nft_contract: addr(1),
        token_id: w(token_id),
        reserve_price: w(100),
        commit_duration: w(3600),
        reveal_duration: w(1800),
        min_deposit: w(10),
    }
}

#[test]
fn salt_preimage_layout() {
    let id = U256::from_limbs([0x0102030405060708, 0, 0, 0x1100000000000000]);
    let creator = addr(0xc);
    let t = terms(5);
    let p = build_salt_preimage(&id, &creator, &t);
    assert_eq!(p.len(), 6 * 32 + 2 * 20);
    assert_eq!(&p[0..8], &[8u8, 7, 6, 5, 4, 3, 2, 1]);
    assert_eq!(&p[8..31], &[0u8; 23]);
    assert_eq!(p[31], 0x11);
    assert_eq!(&p[32..52], &creator.bytes);
    assert_eq!(&p[52..72], &addr(1).bytes);
    assert_eq!(p[72], 5);
    assert_eq!(&p[73..104], &[0u8; 31]);
    assert_eq!(p[104], 100);
    assert_eq!(&p[136..138], &[0x10u8, 0x0e]);
    assert_eq!(&p[168..170], &[0x08u8, 0x07]);
    assert_eq!(p[200], 10);
    assert_eq!(&p[201..232], &[0u8; 31]);
}

#[test]
fn salt_is_keccak_of_preimage() {
    let id = w(1);
    let creator = addr(0xa);
    let t = terms(5);
    let salt = derive_salt(&id, &creator, &t);
    let preimage = build_salt_preimage(&id, &creator, &t);
    let expected = alloy_primitives::keccak256(&preimage);
    assert_eq!(salt, expected.0);
    assert_ne!(&salt[..], &preimage[0..32]);
}

#[test]
fn salt_is_deterministic_and_binds_every_field() {
    let id = w(1);
    let creator = addr(0xa);
    let t = terms(5);
    let base = derive_salt(&id, &creator, &t);
    assert_eq!(base, derive_salt(&w(1), &addr(0xa), &terms(5)));
    assert_ne!(base, derive_salt(&w(2), &creator, &t));
    assert_ne!(base, derive_salt(&id, &addr(0xb), &t));
    let mut t2 = t;
    t2.nft_contract = addr(2);
    assert_ne!(base, derive_salt(&id, &creator, &t2));
    assert_ne!(base, derive_salt(&id, &creator, &terms(6)));
    let mut t3 = t;
    t3.reserve_price = w(101);
    assert_ne!(base, derive_salt(&id, &creator, &t3));
    let mut t4 = t;
    t4.commit_duration = w(3601);
    assert_ne!(base, derive_salt(&id, &creator, &t4));
    let mut t5 = t;
    t5.reveal_duration = w(1801);
    assert_ne!(base, derive_salt(&id, &creator, &t5));
    let mut t6 = t;
    t6.min_deposit = w(11);
    assert_ne!(base, derive_salt(&id, &creator, &t6));
}

#[test]
fn order_salt_matches_derivation() {
    let a = addr(0xa);
    let f = initialized(a);
    let order = f
        .create_auction(a, addr(1), w(5), w(100), w(3600), w(1800), w(10))
        .unwrap();
    assert_eq!(order.salt, derive_salt(&w(1), &a, &terms(5)));
}
