use vstd::prelude::*;
use crate::address::{derive_address, derive_spec, entangler_tag, storage_tag, views_of, Address};
use crate::state::{
    all_vacant, clamp_go_live, go_live_time, mint_ready, AccountData, EntanglerError, EscrowVault,
    FungibleChildEntanglerV0, Ledger,
};

verus! {

/// What the caller chooses when attaching a child to an existing parent.
#[derive(Clone, Copy, Debug, PartialEq, Eq)]
pub struct InitializeFungibleChildEntanglerV0Args {
    pub authority: Option<Address>,
    pub go_live_unix_time: i64,
    pub freeze_swap_unix_time: Option<i64>,
}

/// The accounts and ledger context of the instruction: the payer and its balance,
/// the cost of one new account, the parent registration, the child mint and the
/// ledger's clock.
#[derive(Clone, Copy, Debug, PartialEq, Eq)]
pub struct InitalizeFungibleChildEntangler {
    pub payer: Address,
    pub payer_lamports: u64,
    pub rent_lamports: u64,
    pub entangler: Address,
    pub child_mint: Address,
    pub unix_timestamp: i64,
}

/// `key` holds a parent registration.
pub open spec fn parent_ready(m: Map<Seq<u8>, AccountData>, key: Seq<u8>) -> bool {
    m.contains_key(key) && m[key] is Entangler
}

/// The two addresses the instruction creates, with their bump seeds: the child
/// registration and its vault.
pub open spec fn child_addresses(program: Seq<u8>, parent: Seq<u8>, child_mint: Seq<u8>) -> Option<Seq<(Seq<u8>, u8)>> {
    match derive_spec(program, entangler_tag(), seq![parent, child_mint]) {
        None => None,
        Some(c) => match derive_spec(program, storage_tag(), seq![c.0]) {
            None => None,
            Some(cs) => Some(seq![c, cs]),
        },
    }
}

/// Which error the instruction owes, or the addresses it creates.
pub open spec fn child_outcome(
    m: Map<Seq<u8>, AccountData>,
    program: Seq<u8>,
    ctx: InitalizeFungibleChildEntangler,
) -> Result<Seq<(Seq<u8>, u8)>, EntanglerError> {
    if !parent_ready(m, ctx.entangler@) {
        Err(EntanglerError::ParentNotInitialized)
    } else if !(mint_ready(m, ctx.child_mint@) && m[ctx.entangler@]->Entangler_0.mint@ != ctx.child_mint@) {
        Err(EntanglerError::InvalidMintPair)
    } else {
        match child_addresses(program, ctx.entangler@, ctx.child_mint@) {
            None => Err(EntanglerError::DerivationExhausted),
            Some(a) => if !all_vacant(m, a) {
                Err(EntanglerError::AddressAlreadyExists)
            } else if (ctx.payer_lamports as int) < 2 * ctx.rent_lamports {
                Err(EntanglerError::FundingFailure)
            } else {
                Ok(a)
            },
        }
    }
}

/// The instruction's effect: on an error the ledger is unchanged; on success the
/// child record and its vault are created, and nothing else changes.
pub open spec fn child_post(
    m0: Map<Seq<u8>, AccountData>,
    program: Seq<u8>,
    ctx: InitalizeFungibleChildEntangler,
    args: InitializeFungibleChildEntanglerV0Args,
    r: Result<Address, EntanglerError>,
    m1: Map<Seq<u8>, AccountData>,
) -> bool {
    match child_outcome(m0, program, ctx) {
        Err(e) => r == Err::<Address, EntanglerError>(e) && m1 == m0,
        Ok(a) => match r {
            Ok(c) => {
                &&& c@ == a[0].0
                &&& m1.dom() == m0.dom().insert(a[0].0).insert(a[1].0)
                &&& forall|k: Seq<u8>| #[trigger] m0.contains_key(k) ==> m1[k] == m0[k]
                &&& match m1[a[0].0] {
                    AccountData::ChildEntangler(x) => {
                        &&& x.authority == args.authority
                        &&& x.parent_entangler == ctx.entangler
                        &&& x.mint == ctx.child_mint
                        &&& x.storage@ == a[1].0
                        &&& x.go_live_unix_time == clamp_go_live(args.go_live_unix_time, ctx.unix_timestamp)
                        &&& x.freeze_swap_unix_time == args.freeze_swap_unix_time
                        &&& x.created_at_unix_time == ctx.unix_timestamp
                        &&& x.bump_seed == a[0].1
                        &&& x.storage_bump_seed == a[1].1
                    },
                    _ => false,
                }
                &&& match m1[a[1].0] {
                    AccountData::Vault(v) => v.mint == ctx.child_mint && v.authority == ctx.entangler && v.amount == 0,
                    _ => false,
                }
            },
            Err(_) => false,
        },
    }
}

/// Derives the addresses of a child registration of `parent` and of its vault.
pub fn find_child_addresses(program: &Address, parent: &Address, child_mint: &Address) -> (r: Option<
    [(Address, u8); 2],
>)
    ensures
        child_addresses(program@, parent@, child_mint@) == (match r {
            Some(x) => Some(seq![(x[0].0@, x[0].1), (x[1].0@, x[1].1)]),
            None => None,
        }),
{
    let ids: Vec<Vec<u8>> = vec![parent.to_vec(), child_mint.to_vec()];
    assert(views_of(ids@) =~= seq![parent@, child_mint@]);
    let c = match derive_address(program, false, &ids) {
        Some(p) => p,
        None => return None,
    };
    let ids: Vec<Vec<u8>> = vec![c.0.to_vec()];
    assert(views_of(ids@) =~= seq![c.0@]);
    let cs = match derive_address(program, true, &ids) {
        Some(p) => p,
        None => return None,
    };
    Some([c, cs])
}

/// Creates a child registration bound to an existing parent, and its vault in
/// the parent's custody, both or neither. Returns the child's address.
pub fn handler(
    ledger: &mut Ledger,
    ctx: &InitalizeFungibleChildEntangler,
    args: &InitializeFungibleChildEntanglerV0Args,
) -> (r: Result<Address, EntanglerError>)
    requires
        old(ledger).wf(),
    ensures
        final(ledger).wf(),
        final(ledger).program() == old(ledger).program(),
        child_post(old(ledger)@, old(ledger).program()@, *ctx, *args, r, final(ledger)@),
{
    let parent = match ledger.get(&ctx.entangler) {
        Some(AccountData::Entangler(p)) => p,
        _ => return Err(EntanglerError::ParentNotInitialized),
    };
    if !ledger.is_initialized_mint(&ctx.child_mint) || parent.mint.same_as(&ctx.child_mint) {
        return Err(EntanglerError::InvalidMintPair);
    }
    let program = ledger.program_id();
    let a = match find_child_addresses(&program, &ctx.entangler, &ctx.child_mint) {
        Some(a) => a,
        None => return Err(EntanglerError::DerivationExhausted),
    };
    let ghost sa = seq![(a[0].0@, a[0].1), (a[1].0@, a[1].1)];
    if ledger.is_occupied(&a[0].0) || ledger.is_occupied(&a[1].0) || a[0].0.same_as(&a[1].0) {
        proof {
            assert(!all_vacant(ledger@, sa)) by {
                if all_vacant(ledger@, sa) {
                    assert(!ledger@.contains_key(sa[0].0) && !ledger@.contains_key(sa[1].0));
                    assert(sa[0].0 != sa[1].0);
                }
            }
        }
        return Err(EntanglerError::AddressAlreadyExists);
    }
    assert(all_vacant(ledger@, sa));
    if (ctx.payer_lamports as u128) < (ctx.rent_lamports as u128) * 2 {
        return Err(EntanglerError::FundingFailure);
    }
    let now = ctx.unix_timestamp;
    let child = FungibleChildEntanglerV0 {
        authority: args.authority,
        parent_entangler: ctx.entangler,
        mint: ctx.child_mint,
        storage: a[1].0,
        go_live_unix_time: go_live_time(args.go_live_unix_time, now),
        freeze_swap_unix_time: args.freeze_swap_unix_time,
        created_at_unix_time: now,
        bump_seed: a[0].1,
        storage_bump_seed: a[1].1,
    };
    let ghost m0 = ledger@;
    let _ = ledger.create(a[0].0, AccountData::ChildEntangler(child));
    let _ = ledger.create(
        a[1].0,
        AccountData::Vault(EscrowVault { mint: ctx.child_mint, authority: ctx.entangler, amount: 0 }),
    );
    assert(ledger@.dom() =~= m0.dom().insert(sa[0].0).insert(sa[1].0));
    Ok(a[0].0)
}

} // verus!
