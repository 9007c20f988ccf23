use vstd::prelude::*;
use crate::address::{derive_address, derive_spec, entangler_tag, storage_tag, Address};
use crate::state::{
    all_vacant, clamp_go_live, go_live_time, mint_ready, AccountData, EntanglerError, EscrowVault,
    FungibleChildEntanglerV0, FungibleEntanglerV0, Ledger,
};

verus! {

/// What the caller chooses when creating a parent and its first child.
#[derive(Clone, Debug, PartialEq, Eq)]
pub struct InitializeFungibleEntanglerV0Args {
    pub authority: Option<Address>,
    pub seed: Vec<u8>,
    pub go_live_unix_time: i64,
    pub child_go_live_unix_time: i64,
    pub freeze_swap_unix_time: Option<i64>,
    pub freeze_child_unix_time: Option<i64>,
}

/// The accounts and ledger context of the instruction: the payer and its balance,
/// the cost of one new account, the two mints and the ledger's clock.
#[derive(Clone, Copy, Debug, PartialEq, Eq)]
pub struct InitializeFungibleEntanglerV0 {
    pub payer: Address,
    pub payer_lamports: u64,
    pub rent_lamports: u64,
    pub mint: Address,
    pub child_mint: Address,
    pub unix_timestamp: i64,
}

/// The four addresses the instruction creates, with their bump seeds, in the order
/// parent, child, parent vault, child vault.
pub open spec fn parent_addresses(program: Seq<u8>, seed: Seq<u8>, child_mint: Seq<u8>) -> Option<Seq<(Seq<u8>, u8)>> {
    match derive_spec(program, entangler_tag(), seq![seed]) {
        None => None,
        Some(e) => match derive_spec(program, entangler_tag(), seq![e.0, child_mint]) {
            None => None,
            Some(c) => match derive_spec(program, storage_tag(), seq![e.0]) {
                None => None,
                Some(s) => match derive_spec(program, storage_tag(), seq![c.0]) {
                    None => None,
                    Some(cs) => Some(seq![e, c, s, cs]),
                },
            },
        },
    }
}

/// Which error the instruction owes, or the addresses it creates.
pub open spec fn parent_outcome(
    m: Map<Seq<u8>, AccountData>,
    program: Seq<u8>,
    ctx: InitializeFungibleEntanglerV0,
    args: InitializeFungibleEntanglerV0Args,
) -> Result<Seq<(Seq<u8>, u8)>, EntanglerError> {
    if !(mint_ready(m, ctx.mint@) && mint_ready(m, ctx.child_mint@) && ctx.mint@ != ctx.child_mint@) {
        Err(EntanglerError::InvalidMintPair)
    } else {
        match parent_addresses(program, args.seed@, ctx.child_mint@) {
            None => Err(EntanglerError::DerivationExhausted),
            Some(a) => if !all_vacant(m, a) {
                Err(EntanglerError::AddressAlreadyExists)
            } else if (ctx.payer_lamports as int) < 4 * ctx.rent_lamports {
                Err(EntanglerError::FundingFailure)
            } else {
                Ok(a)
            },
        }
    }
}

/// The parent record holds what was asked for, with the clamped go-live time.
pub open spec fn parent_record_ok(
    d: AccountData,
    ctx: InitializeFungibleEntanglerV0,
    args: InitializeFungibleEntanglerV0Args,
    a: Seq<(Seq<u8>, u8)>,
) -> bool {
    match d {
        AccountData::Entangler(e) => {
            &&& e.authority == args.authority
            &&& e.mint == ctx.mint
            &&& e.storage@ == a[2].0
            &&& e.go_live_unix_time == clamp_go_live(args.go_live_unix_time, ctx.unix_timestamp)
            &&& e.freeze_swap_unix_time == args.freeze_swap_unix_time
            &&& e.created_at_unix_time == ctx.unix_timestamp
            &&& e.bump_seed == a[0].1
            &&& e.storage_bump_seed == a[2].1
        },
        _ => false,
    }
}

/// The child record is bound to the new parent and holds what was asked for.
pub open spec fn child_record_ok(
    d: AccountData,
    ctx: InitializeFungibleEntanglerV0,
    args: InitializeFungibleEntanglerV0Args,
    a: Seq<(Seq<u8>, u8)>,
) -> bool {
    match d {
        AccountData::ChildEntangler(c) => {
            &&& c.authority == args.authority
            &&& c.parent_entangler@ == a[0].0
            &&& c.mint == ctx.child_mint
            &&& c.storage@ == a[3].0
            &&& c.go_live_unix_time == clamp_go_live(args.child_go_live_unix_time, ctx.unix_timestamp)
            &&& c.freeze_swap_unix_time == args.freeze_child_unix_time
            &&& c.created_at_unix_time == ctx.unix_timestamp
            &&& c.bump_seed == a[1].1
            &&& c.storage_bump_seed == a[3].1
        },
        _ => false,
    }
}

/// An empty vault of `mint` in the custody of the registration at `owner`.
pub open spec fn vault_ok(d: AccountData, mint: Address, owner: Seq<u8>) -> bool {
    match d {
        AccountData::Vault(v) => v.mint == mint && v.authority@ == owner && v.amount == 0,
        _ => false,
    }
}

/// The instruction's effect: on an error the ledger is unchanged; on success the
/// four accounts are created, filled in, and nothing else changes.
pub open spec fn parent_post(
    m0: Map<Seq<u8>, AccountData>,
    program: Seq<u8>,
    ctx: InitializeFungibleEntanglerV0,
    args: InitializeFungibleEntanglerV0Args,
    r: Result<(Address, Address), EntanglerError>,
    m1: Map<Seq<u8>, AccountData>,
) -> bool {
    match parent_outcome(m0, program, ctx, args) {
        Err(e) => r == Err::<(Address, Address), EntanglerError>(e) && m1 == m0,
        Ok(a) => match r {
            Ok(pc) => {
                &&& pc.0@ == a[0].0
                &&& pc.1@ == a[1].0
                &&& m1.dom() == m0.dom().insert(a[0].0).insert(a[1].0).insert(a[2].0).insert(a[3].0)
                &&& forall|k: Seq<u8>| #[trigger] m0.contains_key(k) ==> m1[k] == m0[k]
                &&& parent_record_ok(m1[a[0].0], ctx, args, a)
                &&& child_record_ok(m1[a[1].0], ctx, args, a)
                &&& vault_ok(m1[a[2].0], ctx.mint, a[0].0)
                &&& vault_ok(m1[a[3].0], ctx.child_mint, a[0].0)
            },
            Err(_) => false,
        },
    }
}

/// Derives the four addresses of a parent registration, its first child and
/// their vaults.
pub fn find_parent_addresses(program: &Address, seed: &Vec<u8>, child_mint: &Address) -> (r: Option<
    [(Address, u8); 4],
>)
    ensures
        parent_addresses(program@, seed@, child_mint@) == (match r {
            Some(x) => Some(seq![(x[0].0@, x[0].1), (x[1].0@, x[1].1), (x[2].0@, x[2].1), (x[3].0@, x[3].1)]),
            None => None,
        }),
{
    let ids: Vec<Vec<u8>> = vec![seed.clone()];
    assert(crate::address::views_of(ids@) =~= seq![seed@]);
    let e = match derive_address(program, false, &ids) {
        Some(p) => p,
        None => return None,
    };
    let ids: Vec<Vec<u8>> = vec![e.0.to_vec(), child_mint.to_vec()];
    assert(crate::address::views_of(ids@) =~= seq![e.0@, child_mint@]);
    let c = match derive_address(program, false, &ids) {
        Some(p) => p,
        None => return None,
    };
    let ids: Vec<Vec<u8>> = vec![e.0.to_vec()];
    assert(crate::address::views_of(ids@) =~= seq![e.0@]);
    let s = match derive_address(program, true, &ids) {
        Some(p) => p,
        None => return None,
    };
    let ids: Vec<Vec<u8>> = vec![c.0.to_vec()];
    assert(crate::address::views_of(ids@) =~= seq![c.0@]);
    let cs = match derive_address(program, true, &ids) {
        Some(p) => p,
        None => return None,
    };
    Some([e, c, s, cs])
}

/// Creates a parent registration, its first child registration and both escrow
/// vaults, all four or none. Returns the parent's and the child's address.
pub fn handler(
    ledger: &mut Ledger,
    ctx: &InitializeFungibleEntanglerV0,
    args: &InitializeFungibleEntanglerV0Args,
) -> (r: Result<(Address, Address), EntanglerError>)
    requires
        old(ledger).wf(),
    ensures
        final(ledger).wf(),
        final(ledger).program() == old(ledger).program(),
        parent_post(old(ledger)@, old(ledger).program()@, *ctx, *args, r, final(ledger)@),
{
    if !ledger.is_initialized_mint(&ctx.mint) || !ledger.is_initialized_mint(&ctx.child_mint)
        || ctx.mint.same_as(&ctx.child_mint) {
        return Err(EntanglerError::InvalidMintPair);
    }
    let program = ledger.program_id();
    let a = match find_parent_addresses(&program, &args.seed, &ctx.child_mint) {
        Some(a) => a,
        None => return Err(EntanglerError::DerivationExhausted),
    };
    let ghost sa = seq![(a[0].0@, a[0].1), (a[1].0@, a[1].1), (a[2].0@, a[2].1), (a[3].0@, a[3].1)];
    if ledger.is_occupied(&a[0].0) || ledger.is_occupied(&a[1].0) || ledger.is_occupied(&a[2].0)
        || ledger.is_occupied(&a[3].0) || a[0].0.same_as(&a[1].0) || a[0].0.same_as(&a[2].0)
        || a[0].0.same_as(&a[3].0) || a[1].0.same_as(&a[2].0) || a[1].0.same_as(&a[3].0)
        || a[2].0.same_as(&a[3].0) {
        proof {
            assert(!all_vacant(ledger@, sa)) by {
                if all_vacant(ledger@, sa) {
                    assert(!ledger@.contains_key(sa[0].0) && !ledger@.contains_key(sa[1].0));
                    assert(!ledger@.contains_key(sa[2].0) && !ledger@.contains_key(sa[3].0));
                    assert(sa[0].0 != sa[1].0 && sa[0].0 != sa[2].0 && sa[0].0 != sa[3].0);
                    assert(sa[1].0 != sa[2].0 && sa[1].0 != sa[3].0 && sa[2].0 != sa[3].0);
                }
            }
        }
        return Err(EntanglerError::AddressAlreadyExists);
    }
    assert(all_vacant(ledger@, sa));
    if (ctx.payer_lamports as u128) < (ctx.rent_lamports as u128) * 4 {
        return Err(EntanglerError::FundingFailure);
    }
    let now = ctx.unix_timestamp;
    let entangler = FungibleEntanglerV0 {
        authority: args.authority,
        mint: ctx.mint,
        storage: a[2].0,
        go_live_unix_time: go_live_time(args.go_live_unix_time, now),
        freeze_swap_unix_time: args.freeze_swap_unix_time,
        created_at_unix_time: now,
        bump_seed: a[0].1,
        storage_bump_seed: a[2].1,
    };
    let child = FungibleChildEntanglerV0 {
        authority: args.authority,
        parent_entangler: a[0].0,
        mint: ctx.child_mint,
        storage: a[3].0,
        go_live_unix_time: go_live_time(args.child_go_live_unix_time, now),
        freeze_swap_unix_time: args.freeze_child_unix_time,
        created_at_unix_time: now,
        bump_seed: a[1].1,
        storage_bump_seed: a[3].1,
    };
    let ghost m0 = ledger@;
    let _ = ledger.create(a[0].0, AccountData::Entangler(entangler));
    let _ = ledger.create(a[1].0, AccountData::ChildEntangler(child));
    let _ = ledger.create(a[2].0, AccountData::Vault(EscrowVault { mint: ctx.mint, authority: a[0].0, amount: 0 }));
    let _ = ledger.create(
        a[3].0,
        AccountData::Vault(EscrowVault { mint: ctx.child_mint, authority: a[0].0, amount: 0 }),
    );
    assert(ledger@.dom() =~= m0.dom().insert(sa[0].0).insert(sa[1].0).insert(sa[2].0).insert(sa[3].0));
    Ok((a[0].0, a[1].0))
}

} // verus!
