//! The bounded member store: `frame_support`'s `BoundedVec`, declared to the
//! verifier, with one wrapper for each of its operations that the registry uses.
use frame_support::storage::bounded_vec::BoundedVec;
use frame_support::traits::ConstU32;
use vstd::prelude::*;

verus! {

/// Identity of a registry participant (an account).
pub type AccountId = u64;

/// Logical time attached to events (a block height).
pub type BlockNumber = u64;

/// Largest number of entries the member list may hold: this deployment's
/// configuration, fixed for the lifetime of the registry.
pub const MAX_MEMBERS: u32 = 2;

/// The type-level form of [`MAX_MEMBERS`], as `BoundedVec` expects it.
pub type MaxMembers = ConstU32<MAX_MEMBERS>;

/// `frame_support`'s `ConstU32`, a `u32` carried in a type; opaque here.
#[verifier::external_type_specification]
#[verifier::external_body]
pub struct ExConstU32<const N: u32>(ConstU32<N>);

/// `frame_support`'s `BoundedVec`; its entries are seen through `members_of`.
#[verifier::external_type_specification]
#[verifier::external_body]
#[verifier::reject_recursive_types(T)]
#[verifier::reject_recursive_types(S)]
pub struct ExBoundedVec<T, S>(BoundedVec<T, S>);

/// The entries of a bounded member list, in order.
pub uninterp spec fn members_of(v: BoundedVec<AccountId, MaxMembers>) -> Seq<AccountId>;

/// Relies on `BoundedVec::new`: the new vector holds no entry.
#[verifier::external_body]
pub(crate) fn bounded_new() -> (r: BoundedVec<AccountId, MaxMembers>)
    ensures
        members_of(r) == Seq::<AccountId>::empty(),
{
    BoundedVec::new()
}

/// Relies on `BoundedVec::try_push`: below the bound the element is appended
/// and `Ok` returned; at or above it the vector is unchanged and the element is
/// handed back in `Err`.
#[verifier::external_body]
pub(crate) fn bounded_try_push(
    v: &mut BoundedVec<AccountId, MaxMembers>,
    x: AccountId,
) -> (r: Result<(), AccountId>)
    ensures
        members_of(*old(v)).len() < MAX_MEMBERS ==> r is Ok,
        members_of(*old(v)).len() < MAX_MEMBERS ==>
            members_of(*final(v)) == members_of(*old(v)).push(x),
        members_of(*old(v)).len() >= MAX_MEMBERS ==> r is Err && r->Err_0 == x,
        members_of(*old(v)).len() >= MAX_MEMBERS ==>
            members_of(*final(v)) == members_of(*old(v)),
{
    v.try_push(x)
}

/// Relies on `BoundedVec::remove`: the entry at `i` is taken out and returned,
/// the later entries move one place down.
#[verifier::external_body]
pub(crate) fn bounded_remove(v: &mut BoundedVec<AccountId, MaxMembers>, i: usize) -> (r:
    AccountId)
    requires
        i < members_of(*old(v)).len(),
    ensures
        r == members_of(*old(v))[i as int],
        members_of(*final(v)) == members_of(*old(v)).remove(i as int),
{
    v.remove(i)
}

/// Relies on `BoundedVec`'s `Deref` to `Vec`: a read-only view of the entries.
#[verifier::external_body]
pub(crate) fn bounded_entries(v: &BoundedVec<AccountId, MaxMembers>) -> (r: &Vec<AccountId>)
    ensures
        r@ == members_of(*v),
{
    &**v
}

} // verus!
