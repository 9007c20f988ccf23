use fungible_entangler::address::{derive_address, Address};
use fungible_entangler::initialize_fungible_child_entangler_v0::{
    find_child_addresses, handler as init_child, InitalizeFungibleChildEntangler,
    InitializeFungibleChildEntanglerV0Args,
};
use fungible_entangler::initialize_fungible_entangler_v0::{
    find_parent_addresses, handler as init_parent, InitializeFungibleEntanglerV0,
    InitializeFungibleEntanglerV0Args,
};
use fungible_entangler::state::{
    go_live_time, AccountData, EntanglerError, EscrowVault, FungibleChildEntanglerV0,
    FungibleEntanglerV0, Ledger, MintAccount,
};

const NOW: i64 = 1_700_000_000;
const FAR_FUTURE: i64 = 4_000_000_000;

fn addr(b: u8) -> Address {
    Address::new([b; 32])
}

fn ledger_with_mints() -> Ledger {
    let mut l = Ledger::new(addr(7));
    assert_eq!(l.create(addr(1), AccountData::Mint(MintAccount { is_initialized: true })), Ok(()));
    assert_eq!(l.create(addr(2), AccountData::Mint(MintAccount { is_initialized: true })), Ok(()));
    assert_eq!(l.create(addr(3), AccountData::Mint(MintAccount { is_initialized: true })), Ok(()));
    assert_eq!(l.create(addr(4), AccountData::Mint(MintAccount { is_initialized: false })), Ok(()));
    l
}

fn parent_ctx(mint: u8, child_mint: u8) -> InitializeFungibleEntanglerV0 {
    InitializeFungibleEntanglerV0 {
        payer: addr(9),
        payer_lamports: 1_000_000,
        rent_lamports: 1_000,
        mint: addr(mint),
        child_mint: addr(child_mint),
        unix_timestamp: NOW,
    }
}

fn parent_args(seed: &[u8], go_live: i64, child_go_live: i64) -> InitializeFungibleEntanglerV0Args {
    InitializeFungibleEntanglerV0Args {
        authority: Some(addr(9)),
        seed: seed.to_vec(),
        go_live_unix_time: go_live,
        child_go_live_unix_time: child_go_live,
        freeze_swap_unix_time: None,
        freeze_child_unix_time: Some(FAR_FUTURE + 10),
    }
}

fn child_ctx(parent: Address, child_mint: u8) -> InitalizeFungibleChildEntangler {
    InitalizeFungibleChildEntangler {
        payer: addr(9),
        payer_lamports: 1_000_000,
        rent_lamports: 1_000,
        entangler: parent,
        child_mint: addr(child_mint),
        unix_timestamp: NOW,
    }
}

fn child_args(go_live: i64) -> InitializeFungibleChildEntanglerV0Args {
    InitializeFungibleChildEntanglerV0Args {
        authority: None,
        go_live_unix_time: go_live,
        freeze_swap_unix_time: Some(FAR_FUTURE),
    }
}

fn parent_record(l: &Ledger, a: &Address) -> FungibleEntanglerV0 {
    match l.get(a) {
        Some(AccountData::Entangler(e)) => e,
        other => panic!("no parent record: {:?}", other),
    }
}

fn child_record(l: &Ledger, a: &Address) -> FungibleChildEntanglerV0 {
    match l.get(a) {
        Some(AccountData::ChildEntangler(c)) => c,
        other => panic!("no child record: {:?}", other),
    }
}

#[test]
fn parent_initialization_creates_linked_records_and_vaults() {
    let mut l = ledger_with_mints();
    let (p, c) = init_parent(&mut l, &parent_ctx(1, 2), &parent_args(b"abc", FAR_FUTURE, FAR_FUTURE)).unwrap();
    let found = find_parent_addresses(&addr(7), &b"abc".to_vec(), &addr(2)).unwrap();
    assert_eq!(found[0].0, p);
    assert_eq!(found[1].0, c);
    let e = parent_record(&l, &p);
    let ch = child_record(&l, &c);
    assert_eq!(e.mint, addr(1));
    assert_eq!(e.authority, Some(addr(9)));
    assert_eq!(e.storage, found[2].0);
    assert_eq!(e.bump_seed, found[0].1);
    assert_eq!(e.storage_bump_seed, found[2].1);
    assert_eq!(e.created_at_unix_time, NOW);
    assert_eq!(ch.parent_entangler, p);
    assert_eq!(ch.mint, addr(2));
    assert_ne!(e.mint, ch.mint);
    assert_eq!(ch.storage, found[3].0);
    assert_eq!(ch.bump_seed, found[1].1);
    assert_eq!(ch.freeze_swap_unix_time, Some(FAR_FUTURE + 10));
    assert_eq!(
        l.get(&found[2].0),
        Some(AccountData::Vault(EscrowVault { mint: addr(1), authority: p, amount: 0 }))
    );
    assert_eq!(
        l.get(&found[3].0),
        Some(AccountData::Vault(EscrowVault { mint: addr(2), authority: p, amount: 0 }))
    );
}

#[test]
fn derivation_is_repeatable_and_depends_on_seeds() {
    let a = find_parent_addresses(&addr(7), &b"abc".to_vec(), &addr(2)).unwrap();
    let b = find_parent_addresses(&addr(7), &b"abc".to_vec(), &addr(2)).unwrap();
    assert_eq!(a, b);
    let other = find_parent_addresses(&addr(7), &b"abd".to_vec(), &addr(2)).unwrap();
    assert_ne!(a[0].0, other[0].0);
    for (k, _) in a.iter() {
        assert_ne!(*k, addr(7));
    }
    assert_ne!(a[0].0, a[1].0);
    assert_ne!(a[2].0, a[3].0);
}

#[test]
fn derive_address_separates_namespaces() {
    let ids = vec![addr(5).to_vec()];
    let e = derive_address(&addr(7), false, &ids).unwrap();
    let s = derive_address(&addr(7), true, &ids).unwrap();
    assert_ne!(e.0, s.0);
    assert_ne!(e.0, addr(5));
}

#[test]
fn overlong_seed_exhausts_derivation() {
    let mut l = ledger_with_mints();
    let seed = [0u8; 33];
    let r = init_parent(&mut l, &parent_ctx(1, 2), &parent_args(&seed, NOW, NOW));
    assert_eq!(r, Err(EntanglerError::DerivationExhausted));
}

#[test]
fn parent_with_equal_mints_is_rejected() {
    let mut l = ledger_with_mints();
    let r = init_parent(&mut l, &parent_ctx(1, 1), &parent_args(b"abc", NOW, NOW));
    assert_eq!(r, Err(EntanglerError::InvalidMintPair));
    let found = find_parent_addresses(&addr(7), &b"abc".to_vec(), &addr(1)).unwrap();
    for (k, _) in found.iter() {
        assert!(!l.is_occupied(k));
    }
}

#[test]
fn parent_with_uninitialized_or_missing_mint_is_rejected() {
    let mut l = ledger_with_mints();
    let r = init_parent(&mut l, &parent_ctx(1, 4), &parent_args(b"abc", NOW, NOW));
    assert_eq!(r, Err(EntanglerError::InvalidMintPair));
    let r = init_parent(&mut l, &parent_ctx(5, 2), &parent_args(b"abc", NOW, NOW));
    assert_eq!(r, Err(EntanglerError::InvalidMintPair));
}

#[test]
fn child_with_parent_mint_is_rejected() {
    let mut l = ledger_with_mints();
    let (p, _) = init_parent(&mut l, &parent_ctx(1, 2), &parent_args(b"abc", NOW, NOW)).unwrap();
    let r = init_child(&mut l, &child_ctx(p, 1), &child_args(NOW));
    assert_eq!(r, Err(EntanglerError::InvalidMintPair));
    let found = find_child_addresses(&addr(7), &p, &addr(1)).unwrap();
    assert!(!l.is_occupied(&found[0].0));
    assert!(!l.is_occupied(&found[1].0));
}

#[test]
fn child_without_parent_is_rejected() {
    let mut l = ledger_with_mints();
    let r = init_child(&mut l, &child_ctx(addr(8), 3), &child_args(NOW));
    assert_eq!(r, Err(EntanglerError::ParentNotInitialized));
    // a mint is no parent registration either
    let r = init_child(&mut l, &child_ctx(addr(1), 3), &child_args(NOW));
    assert_eq!(r, Err(EntanglerError::ParentNotInitialized));
}

#[test]
fn go_live_in_the_past_is_clamped_to_now() {
    let mut l = ledger_with_mints();
    let (p, c) = init_parent(&mut l, &parent_ctx(1, 2), &parent_args(b"abc", 1, NOW - 1)).unwrap();
    assert_eq!(parent_record(&l, &p).go_live_unix_time, NOW);
    assert_eq!(child_record(&l, &c).go_live_unix_time, NOW);
}

#[test]
fn go_live_now_or_later_is_kept() {
    let mut l = ledger_with_mints();
    let (p, c) = init_parent(&mut l, &parent_ctx(1, 2), &parent_args(b"abc", NOW, NOW + 5)).unwrap();
    assert_eq!(parent_record(&l, &p).go_live_unix_time, NOW);
    assert_eq!(child_record(&l, &c).go_live_unix_time, NOW + 5);
    assert_eq!(go_live_time(1, 100), 100);
    assert_eq!(go_live_time(100, 100), 100);
    assert_eq!(go_live_time(101, 100), 101);
}

#[test]
fn second_parent_initialization_collides() {
    let mut l = ledger_with_mints();
    let ctx = parent_ctx(1, 2);
    let args = parent_args(b"abc", FAR_FUTURE, NOW);
    let (p, c) = init_parent(&mut l, &ctx, &args).unwrap();
    let before = (parent_record(&l, &p), child_record(&l, &c));
    let mut later = ctx;
    later.unix_timestamp = NOW + 100;
    let r = init_parent(&mut l, &later, &parent_args(b"abc", 1, 1));
    assert_eq!(r, Err(EntanglerError::AddressAlreadyExists));
    assert_eq!((parent_record(&l, &p), child_record(&l, &c)), before);
}

#[test]
fn far_future_go_live_waits_for_its_time() {
    let mut l = ledger_with_mints();
    let (p, _) = init_parent(&mut l, &parent_ctx(1, 2), &parent_args(b"abc", FAR_FUTURE, NOW)).unwrap();
    let e = parent_record(&l, &p);
    assert_eq!(e.go_live_unix_time, FAR_FUTURE);
    assert_eq!(e.freeze_swap_unix_time, None);
    assert!(!e.is_swap_eligible(NOW));
    assert!(!e.is_swap_eligible(FAR_FUTURE - 1));
    assert!(e.is_swap_eligible(FAR_FUTURE));
    assert!(e.is_swap_eligible(i64::MAX));
}

#[test]
fn freeze_time_closes_the_swap_window() {
    let mut l = ledger_with_mints();
    let (_, c) = init_parent(&mut l, &parent_ctx(1, 2), &parent_args(b"abc", NOW, NOW)).unwrap();
    let ch = child_record(&l, &c);
    assert!(ch.is_swap_eligible(NOW));
    assert!(ch.is_swap_eligible(FAR_FUTURE + 9));
    assert!(!ch.is_swap_eligible(FAR_FUTURE + 10));
    assert!(!ch.is_swap_eligible(NOW - 1));
}

#[test]
fn parent_funding_failure_creates_nothing() {
    let mut l = ledger_with_mints();
    let mut ctx = parent_ctx(1, 2);
    ctx.rent_lamports = 250_001;
    let r = init_parent(&mut l, &ctx, &parent_args(b"abc", NOW, NOW));
    assert_eq!(r, Err(EntanglerError::FundingFailure));
    let found = find_parent_addresses(&addr(7), &b"abc".to_vec(), &addr(2)).unwrap();
    for (k, _) in found.iter() {
        assert!(!l.is_occupied(k));
    }
    ctx.rent_lamports = 250_000;
    assert!(init_parent(&mut l, &ctx, &parent_args(b"abc", NOW, NOW)).is_ok());
}

#[test]
fn child_attaches_to_existing_parent() {
    let mut l = ledger_with_mints();
    let (p, _) = init_parent(&mut l, &parent_ctx(1, 2), &parent_args(b"abc", NOW, NOW)).unwrap();
    let c = init_child(&mut l, &child_ctx(p, 3), &child_args(1)).unwrap();
    let found = find_child_addresses(&addr(7), &p, &addr(3)).unwrap();
    assert_eq!(found[0].0, c);
    let ch = child_record(&l, &c);
    assert_eq!(ch.parent_entangler, p);
    assert_eq!(ch.mint, addr(3));
    assert_eq!(ch.authority, None);
    assert_eq!(ch.go_live_unix_time, NOW);
    assert_eq!(ch.storage, found[1].0);
    assert_eq!(ch.storage_bump_seed, found[1].1);
    assert_eq!(
        l.get(&found[1].0),
        Some(AccountData::Vault(EscrowVault { mint: addr(3), authority: p, amount: 0 }))
    );
    let again = init_child(&mut l, &child_ctx(p, 3), &child_args(1));
    assert_eq!(again, Err(EntanglerError::AddressAlreadyExists));
}

#[test]
fn child_created_with_parent_cannot_be_attached_again() {
    let mut l = ledger_with_mints();
    let (p, c) = init_parent(&mut l, &parent_ctx(1, 2), &parent_args(b"abc", NOW, NOW)).unwrap();
    assert_eq!(find_child_addresses(&addr(7), &p, &addr(2)).unwrap()[0].0, c);
    let r = init_child(&mut l, &child_ctx(p, 2), &child_args(NOW));
    assert_eq!(r, Err(EntanglerError::AddressAlreadyExists));
}

#[test]
fn child_funding_failure_and_uninitialized_mint() {
    let mut l = ledger_with_mints();
    let (p, _) = init_parent(&mut l, &parent_ctx(1, 2), &parent_args(b"abc", NOW, NOW)).unwrap();
    let mut ctx = child_ctx(p, 3);
    ctx.rent_lamports = 500_001;
    assert_eq!(init_child(&mut l, &ctx, &child_args(NOW)), Err(EntanglerError::FundingFailure));
    assert_eq!(init_child(&mut l, &child_ctx(p, 4), &child_args(NOW)), Err(EntanglerError::InvalidMintPair));
}

#[test]
fn ledger_creation_is_create_or_fail() {
    let mut l = Ledger::new(addr(7));
    assert_eq!(l.program_id(), addr(7));
    assert_eq!(l.get(&addr(1)), None);
    assert_eq!(l.create(addr(1), AccountData::Mint(MintAccount { is_initialized: true })), Ok(()));
    assert_eq!(
        l.create(addr(1), AccountData::Mint(MintAccount { is_initialized: false })),
        Err(EntanglerError::AddressAlreadyExists)
    );
    assert!(l.is_initialized_mint(&addr(1)));
    assert!(!l.is_initialized_mint(&addr(2)));
    assert!(addr(1).same_as(&addr(1)));
    assert!(!addr(1).same_as(&addr(2)));
    assert_eq!(addr(3).to_vec(), vec![3u8; 32]);
}
