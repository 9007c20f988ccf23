use vstd::prelude::*;
use crate::address::Address;
use crate::initialize_fungible_child_entangler_v0::{
    child_addresses, child_post, parent_ready, InitalizeFungibleChildEntangler,
    InitializeFungibleChildEntanglerV0Args,
};
use crate::initialize_fungible_entangler_v0::{
    parent_addresses, parent_post, InitializeFungibleEntanglerV0, InitializeFungibleEntanglerV0Args,
};
use crate::state::{AccountData, EntanglerError};

verus! {

/// Deriving the addresses again from the same seeds gives the addresses that a
/// successful parent initialization created, and both are occupied afterwards.
pub proof fn lemma_parent_addresses_rederive(
    m0: Map<Seq<u8>, AccountData>,
    program: Seq<u8>,
    ctx: InitializeFungibleEntanglerV0,
    args: InitializeFungibleEntanglerV0Args,
    r: Result<(Address, Address), EntanglerError>,
    m1: Map<Seq<u8>, AccountData>,
)
    requires
        parent_post(m0, program, ctx, args, r, m1),
        r is Ok,
    ensures
        parent_addresses(program, args.seed@, ctx.child_mint@) is Some,
        parent_addresses(program, args.seed@, ctx.child_mint@)->Some_0[0].0 == r->Ok_0.0@,
        parent_addresses(program, args.seed@, ctx.child_mint@)->Some_0[1].0 == r->Ok_0.1@,
        m1.contains_key(r->Ok_0.0@),
        m1.contains_key(r->Ok_0.1@),
{
}

/// Deriving the child's address again from the parent and the child mint gives
/// the address that a successful child initialization created.
pub proof fn lemma_child_address_rederive(
    m0: Map<Seq<u8>, AccountData>,
    program: Seq<u8>,
    ctx: InitalizeFungibleChildEntangler,
    args: InitializeFungibleChildEntanglerV0Args,
    r: Result<Address, EntanglerError>,
    m1: Map<Seq<u8>, AccountData>,
)
    requires
        child_post(m0, program, ctx, args, r, m1),
        r is Ok,
    ensures
        child_addresses(program, ctx.entangler@, ctx.child_mint@) is Some,
        child_addresses(program, ctx.entangler@, ctx.child_mint@)->Some_0[0].0 == r->Ok_0@,
        m1.contains_key(r->Ok_0@),
{
}

/// A parent initialization whose two mints are equal fails with `InvalidMintPair`
/// and creates nothing.
pub proof fn lemma_parent_equal_mints_rejected(
    m0: Map<Seq<u8>, AccountData>,
    program: Seq<u8>,
    ctx: InitializeFungibleEntanglerV0,
    args: InitializeFungibleEntanglerV0Args,
    r: Result<(Address, Address), EntanglerError>,
    m1: Map<Seq<u8>, AccountData>,
)
    requires
        parent_post(m0, program, ctx, args, r, m1),
        ctx.mint@ == ctx.child_mint@,
    ensures
        r == Err::<(Address, Address), EntanglerError>(EntanglerError::InvalidMintPair),
        m1 == m0,
{
}

/// A child initialization whose mint equals its parent's mint fails with
/// `InvalidMintPair` and creates nothing.
pub proof fn lemma_child_equal_mints_rejected(
    m0: Map<Seq<u8>, AccountData>,
    program: Seq<u8>,
    ctx: InitalizeFungibleChildEntangler,
    args: InitializeFungibleChildEntanglerV0Args,
    r: Result<Address, EntanglerError>,
    m1: Map<Seq<u8>, AccountData>,
)
    requires
        child_post(m0, program, ctx, args, r, m1),
        parent_ready(m0, ctx.entangler@),
        m0[ctx.entangler@]->Entangler_0.mint@ == ctx.child_mint@,
    ensures
        r == Err::<Address, EntanglerError>(EntanglerError::InvalidMintPair),
        m1 == m0,
{
}

/// A child initialization against an address that holds no parent registration
/// fails with `ParentNotInitialized` and creates nothing.
pub proof fn lemma_child_requires_parent(
    m0: Map<Seq<u8>, AccountData>,
    program: Seq<u8>,
    ctx: InitalizeFungibleChildEntangler,
    args: InitializeFungibleChildEntanglerV0Args,
    r: Result<Address, EntanglerError>,
    m1: Map<Seq<u8>, AccountData>,
)
    requires
        child_post(m0, program, ctx, args, r, m1),
        !parent_ready(m0, ctx.entangler@),
    ensures
        r == Err::<Address, EntanglerError>(EntanglerError::ParentNotInitialized),
        m1 == m0,
{
}

/// The stored go-live times are the requested ones, raised to the ledger's time
/// where they lie in the past.
pub proof fn lemma_parent_go_live_clamped(
    m0: Map<Seq<u8>, AccountData>,
    program: Seq<u8>,
    ctx: InitializeFungibleEntanglerV0,
    args: InitializeFungibleEntanglerV0Args,
    r: Result<(Address, Address), EntanglerError>,
    m1: Map<Seq<u8>, AccountData>,
)
    requires
        parent_post(m0, program, ctx, args, r, m1),
        r is Ok,
    ensures
        m1[r->Ok_0.0@] is Entangler,
        m1[r->Ok_0.1@] is ChildEntangler,
        args.go_live_unix_time < ctx.unix_timestamp ==> m1[r->Ok_0.0@]->Entangler_0.go_live_unix_time
            == ctx.unix_timestamp,
        args.go_live_unix_time >= ctx.unix_timestamp ==> m1[r->Ok_0.0@]->Entangler_0.go_live_unix_time
            == args.go_live_unix_time,
        args.child_go_live_unix_time < ctx.unix_timestamp
            ==> m1[r->Ok_0.1@]->ChildEntangler_0.go_live_unix_time == ctx.unix_timestamp,
        args.child_go_live_unix_time >= ctx.unix_timestamp
            ==> m1[r->Ok_0.1@]->ChildEntangler_0.go_live_unix_time == args.child_go_live_unix_time,
{
}

/// The stored go-live time of an attached child is the requested one, raised to
/// the ledger's time where it lies in the past.
pub proof fn lemma_child_go_live_clamped(
    m0: Map<Seq<u8>, AccountData>,
    program: Seq<u8>,
    ctx: InitalizeFungibleChildEntangler,
    args: InitializeFungibleChildEntanglerV0Args,
    r: Result<Address, EntanglerError>,
    m1: Map<Seq<u8>, AccountData>,
)
    requires
        child_post(m0, program, ctx, args, r, m1),
        r is Ok,
    ensures
        m1[r->Ok_0@] is ChildEntangler,
        args.go_live_unix_time < ctx.unix_timestamp ==> m1[r->Ok_0@]->ChildEntangler_0.go_live_unix_time
            == ctx.unix_timestamp,
        args.go_live_unix_time >= ctx.unix_timestamp ==> m1[r->Ok_0@]->ChildEntangler_0.go_live_unix_time
            == args.go_live_unix_time,
{
}

/// A second parent initialization with the same seed and mints, after a first one
/// succeeded, fails with `AddressAlreadyExists` and changes nothing.
pub proof fn lemma_parent_second_call_collides(
    m0: Map<Seq<u8>, AccountData>,
    program: Seq<u8>,
    ctx: InitializeFungibleEntanglerV0,
    args: InitializeFungibleEntanglerV0Args,
    r1: Result<(Address, Address), EntanglerError>,
    m1: Map<Seq<u8>, AccountData>,
    r2: Result<(Address, Address), EntanglerError>,
    m2: Map<Seq<u8>, AccountData>,
)
    requires
        parent_post(m0, program, ctx, args, r1, m1),
        parent_post(m1, program, ctx, args, r2, m2),
        r1 is Ok,
    ensures
        r2 == Err::<(Address, Address), EntanglerError>(EntanglerError::AddressAlreadyExists),
        m2 == m1,
{
    let a = parent_addresses(program, args.seed@, ctx.child_mint@)->Some_0;
    assert(m0.contains_key(ctx.mint@) && m0.contains_key(ctx.child_mint@));
    assert(m1.contains_key(a[0].0));
}

/// After a successful parent initialization the child is bound to the new parent
/// and the two records hold different mints.
pub proof fn lemma_parent_child_linked(
    m0: Map<Seq<u8>, AccountData>,
    program: Seq<u8>,
    ctx: InitializeFungibleEntanglerV0,
    args: InitializeFungibleEntanglerV0Args,
    r: Result<(Address, Address), EntanglerError>,
    m1: Map<Seq<u8>, AccountData>,
)
    requires
        parent_post(m0, program, ctx, args, r, m1),
        r is Ok,
    ensures
        m1[r->Ok_0.0@] is Entangler,
        m1[r->Ok_0.1@] is ChildEntangler,
        m1[r->Ok_0.1@]->ChildEntangler_0.parent_entangler@ == r->Ok_0.0@,
        m1[r->Ok_0.0@]->Entangler_0.mint@ != m1[r->Ok_0.1@]->ChildEntangler_0.mint@,
{
}

} // verus!
