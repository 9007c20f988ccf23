use vstd::prelude::*;
use crate::address::Address;

verus! {

/// Errors of the initialization instructions.
#[derive(Clone, Copy, Debug, PartialEq, Eq, Structural)]
pub enum EntanglerError {
    /// The two mints are equal, or one of them is not an initialized mint.
    InvalidMintPair,
    /// The referenced parent registration does not exist.
    ParentNotInitialized,
    /// A derived account is already occupied.
    AddressAlreadyExists,
    /// No valid bump seed was found for a derived address.
    DerivationExhausted,
    /// The payer cannot cover the cost of the new accounts.
    FundingFailure,
}

/// Swaps are permitted from `go_live` on, until `freeze` is reached if it is set.
pub open spec fn swap_window_open(go_live: i64, freeze: Option<i64>, now: i64) -> bool {
    now >= go_live && match freeze {
        Some(f) => now < f,
        None => true,
    }
}

fn window_open(go_live: i64, freeze: Option<i64>, now: i64) -> (r: bool)
    ensures
        r == swap_window_open(go_live, freeze, now),
{
    now >= go_live && match freeze {
        Some(f) => now < f,
        None => true,
    }
}

/// The go-live time that is stored: a time in the past is raised to `now`.
pub open spec fn clamp_go_live(requested: i64, now: i64) -> i64 {
    if requested < now {
        now
    } else {
        requested
    }
}

pub fn go_live_time(requested: i64, now: i64) -> (r: i64)
    ensures
        r == clamp_go_live(requested, now),
        r >= now,
        r >= requested,
{
    if requested < now {
        now
    } else {
        requested
    }
}

/// `key` holds an initialized mint.
pub open spec fn mint_ready(m: Map<Seq<u8>, AccountData>, key: Seq<u8>) -> bool {
    m.contains_key(key) && match m[key] {
        AccountData::Mint(x) => x.is_initialized,
        _ => false,
    }
}

/// None of the addresses is occupied, and no two of them are equal.
pub open spec fn all_vacant(m: Map<Seq<u8>, AccountData>, a: Seq<(Seq<u8>, u8)>) -> bool {
    &&& forall|i: int| 0 <= i < a.len() ==> !m.contains_key(#[trigger] a[i].0)
    &&& forall|i: int, j: int| 0 <= i < j < a.len() ==> #[trigger] a[i].0 != #[trigger] a[j].0
}

/// A parent registration.
#[derive(Clone, Copy, Debug, PartialEq, Eq)]
pub struct FungibleEntanglerV0 {
    pub authority: Option<Address>,
    pub mint: Address,
    pub storage: Address,
    pub go_live_unix_time: i64,
    pub freeze_swap_unix_time: Option<i64>,
    pub created_at_unix_time: i64,
    pub bump_seed: u8,
    pub storage_bump_seed: u8,
}

impl FungibleEntanglerV0 {
    /// Whether swaps against this registration are permitted at `now`.
    pub fn is_swap_eligible(&self, now: i64) -> (r: bool)
        ensures
            r == swap_window_open(self.go_live_unix_time, self.freeze_swap_unix_time, now),
    {
        window_open(self.go_live_unix_time, self.freeze_swap_unix_time, now)
    }
}

/// A child registration, bound to one parent registration.
#[derive(Clone, Copy, Debug, PartialEq, Eq)]
pub struct FungibleChildEntanglerV0 {
    pub authority: Option<Address>,
    pub parent_entangler: Address,
    pub mint: Address,
    pub storage: Address,
    pub go_live_unix_time: i64,
    pub freeze_swap_unix_time: Option<i64>,
    pub created_at_unix_time: i64,
    pub bump_seed: u8,
    pub storage_bump_seed: u8,
}

impl FungibleChildEntanglerV0 {
    /// Whether swaps against this registration are permitted at `now`.
    pub fn is_swap_eligible(&self, now: i64) -> (r: bool)
        ensures
            r == swap_window_open(self.go_live_unix_time, self.freeze_swap_unix_time, now),
    {
        window_open(self.go_live_unix_time, self.freeze_swap_unix_time, now)
    }
}

/// A token mint, as far as registration reads it.
#[derive(Clone, Copy, Debug, PartialEq, Eq)]
pub struct MintAccount {
    pub is_initialized: bool,
}

/// A token-holding account whose custody lies with `authority`.
#[derive(Clone, Copy, Debug, PartialEq, Eq)]
pub struct EscrowVault {
    pub mint: Address,
    pub authority: Address,
    pub amount: u64,
}

/// What an occupied address holds.
#[derive(Clone, Copy, Debug, PartialEq, Eq)]
pub enum AccountData {
    Mint(MintAccount),
    Vault(EscrowVault),
    Entangler(FungibleEntanglerV0),
    ChildEntangler(FungibleChildEntanglerV0),
}

/// The accounts of a ledger, keyed by address, with the id of the program that
/// owns the derived addresses. Accounts are created once and never replaced.
pub struct Ledger {
    program_id: Address,
    accounts: Vec<(Address, AccountData)>,
    contents: Ghost<Map<Seq<u8>, AccountData>>,
}

impl View for Ledger {
    type V = Map<Seq<u8>, AccountData>;

    closed spec fn view(&self) -> Map<Seq<u8>, AccountData> {
        self.contents@
    }
}

impl Ledger {
    /// The account list and the map agree, entry for entry.
    pub closed spec fn wf(&self) -> bool {
        &&& forall|i: int|
            0 <= i < self.accounts@.len() ==> #[trigger] self.contents@.contains_key(self.accounts@[i].0@)
                && self.contents@[self.accounts@[i].0@] == self.accounts@[i].1
        &&& forall|k: Seq<u8>|
            #[trigger] self.contents@.contains_key(k) ==> exists|i: int|
                0 <= i < self.accounts@.len() && #[trigger] self.accounts@[i].0@ == k
    }

    /// The program that owns the derived addresses.
    pub closed spec fn program(&self) -> Address {
        self.program_id
    }

    pub fn program_id(&self) -> (r: Address)
        ensures
            r == self.program(),
    {
        self.program_id
    }

    /// An empty ledger for the program `program_id`.
    pub fn new(program_id: Address) -> (r: Ledger)
        ensures
            r.wf(),
            r@ == Map::<Seq<u8>, AccountData>::empty(),
            r.program() == program_id,
    {
        Ledger { program_id, accounts: Vec::new(), contents: Ghost(Map::empty()) }
    }

    /// The account at `key`, if there is one.
    pub fn get(&self, key: &Address) -> (r: Option<AccountData>)
        requires
            self.wf(),
        ensures
            r == (if self@.contains_key(key@) { Some(self@[key@]) } else { None::<AccountData> }),
    {
        let mut i: usize = 0;
        while i < self.accounts.len()
            invariant
                self.wf(),
                i <= self.accounts@.len(),
                forall|j: int| 0 <= j < i ==> self.accounts@[j].0@ != key@,
            decreases self.accounts.len() - i,
        {
            if self.accounts[i].0.same_as(key) {
                assert(self.contents@.contains_key(self.accounts@[i as int].0@));
                return Some(self.accounts[i].1);
            }
            i = i + 1;
        }
        proof {
            if self@.contains_key(key@) {
                let j = choose|j: int| 0 <= j < self.accounts@.len() && #[trigger] self.accounts@[j].0@ == key@;
                assert(self.accounts@[j].0@ == key@);
                assert(false);
            }
        }
        None
    }

    /// Whether an account exists at `key`.
    pub fn is_occupied(&self, key: &Address) -> (r: bool)
        requires
            self.wf(),
        ensures
            r == self@.contains_key(key@),
    {
        self.get(key).is_some()
    }

    /// Whether `key` holds an initialized mint.
    pub fn is_initialized_mint(&self, key: &Address) -> (r: bool)
        requires
            self.wf(),
        ensures
            r == mint_ready(self@, key@),
    {
        match self.get(key) {
            Some(AccountData::Mint(x)) => x.is_initialized,
            _ => false,
        }
    }

    /// Creates an account at `key`; fails, changing nothing, where one exists.
    pub fn create(&mut self, key: Address, data: AccountData) -> (r: Result<(), EntanglerError>)
        requires
            old(self).wf(),
        ensures
            final(self).wf(),
            final(self).program() == old(self).program(),
            old(self)@.contains_key(key@) ==> r == Err::<(), EntanglerError>(EntanglerError::AddressAlreadyExists)
                && final(self)@ == old(self)@,
            !old(self)@.contains_key(key@) ==> r == Ok::<(), EntanglerError>(()) && final(self)@ == old(self)@.insert(
                key@,
                data,
            ),
    {
        if self.is_occupied(&key) {
            return Err(EntanglerError::AddressAlreadyExists);
        }
        let ghost before = self.accounts@;
        self.accounts.push((key, data));
        self.contents = Ghost(self.contents@.insert(key@, data));
        assert forall|k: Seq<u8>| #[trigger] self.contents@.contains_key(k) implies exists|i: int|
            0 <= i < self.accounts@.len() && #[trigger] self.accounts@[i].0@ == k by {
            if k != key@ {
                let j = choose|j: int| 0 <= j < before.len() && #[trigger] before[j].0@ == k;
                assert(self.accounts@[j].0@ == k);
            } else {
                assert(self.accounts@[before.len() as int].0@ == k);
            }
        }
        Ok(())
    }
}

} // verus!
