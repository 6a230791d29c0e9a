//! The membership registry: its state, its events and errors, the
//! mathematical model of each operation, and the operations themselves.
use crate::bounded::{
    bounded_entries, bounded_new, bounded_remove, bounded_try_push, members_of, AccountId,
    BlockNumber, MaxMembers, MAX_MEMBERS,
};
use frame_support::storage::bounded_vec::BoundedVec;
use vstd::prelude::*;

verus! {

/// What a successful mutation reports: the block it happened in and the
/// identity it concerned.
#[derive(Clone, Copy, Debug, PartialEq, Eq, Structural)]
pub enum Event {
    NewMemberAdded(BlockNumber, AccountId),
    MemberRemoved(BlockNumber, AccountId),
}

/// Why an operation was refused. A refused operation leaves the member list
/// exactly as it was and reports no event.
#[derive(Clone, Copy, Debug, PartialEq, Eq, Structural)]
pub enum Error {
    /// The caller is not a verified (signed) account.
    NotAuthorized,
    /// Kept for compatibility of the error taxonomy; no operation returns it,
    /// since no identity is treated as privileged when added.
    RootCannotBeMember,
    /// The list already holds `MAX_MEMBERS` entries.
    MembersLimitExceeded,
    /// The identity to remove is not in the list.
    MemberNotFound,
}

/// `k` is the position of the first entry of `s` equal to `x`.
pub open spec fn is_first_index(s: Seq<AccountId>, x: AccountId, k: int) -> bool {
    &&& 0 <= k < s.len()
    &&& s[k] == x
    &&& forall|j: int| 0 <= j < k ==> s[j] != x
}

/// The position of the first entry of `s` equal to `x` (meaningful when `s`
/// contains `x`).
pub open spec fn first_index(s: Seq<AccountId>, x: AccountId) -> int
    decreases s.len(),
{
    if s.len() == 0 || s[0] == x {
        0
    } else {
        1 + first_index(s.drop_first(), x)
    }
}

/// When `s` contains `x`, `first_index` is the position of its first
/// occurrence.
pub proof fn lemma_first_index(s: Seq<AccountId>, x: AccountId)
    requires
        s.contains(x),
    ensures
        is_first_index(s, x, first_index(s, x)),
    decreases s.len(),
{
    if s[0] != x {
        let w = choose|w: int| 0 <= w < s.len() && s[w] == x;
        assert(s.drop_first()[w - 1] == x);
        lemma_first_index(s.drop_first(), x);
        let k = first_index(s.drop_first(), x);
        assert forall|j: int| 0 <= j < k + 1 implies s[j] != x by {
            if j > 0 {
                assert(s[j] == s.drop_first()[j - 1]);
            }
        }
    }
}

/// The outcome of `add_member` on the list `s`: the list afterwards and the
/// result returned.
pub open spec fn add_outcome(
    s: Seq<AccountId>,
    caller: Option<AccountId>,
    member: AccountId,
    now: BlockNumber,
) -> (Seq<AccountId>, Result<Event, Error>) {
    if caller is None {
        (s, Err(Error::NotAuthorized))
    } else if s.len() >= MAX_MEMBERS {
        (s, Err(Error::MembersLimitExceeded))
    } else {
        (s.push(member), Ok(Event::NewMemberAdded(now, member)))
    }
}

/// The outcome of `remove_member` on the list `s`: the list afterwards and
/// the result returned. Only the first occurrence of `member` is taken out.
pub open spec fn remove_outcome(
    s: Seq<AccountId>,
    caller: Option<AccountId>,
    member: AccountId,
    now: BlockNumber,
) -> (Seq<AccountId>, Result<Event, Error>) {
    if caller is None {
        (s, Err(Error::NotAuthorized))
    } else if !s.contains(member) {
        (s, Err(Error::MemberNotFound))
    } else {
        (s.remove(first_index(s, member)), Ok(Event::MemberRemoved(now, member)))
    }
}

/// The position of the first entry equal to `x`, if any.
fn position(v: &Vec<AccountId>, x: AccountId) -> (r: Option<usize>)
    ensures
        r is None <==> !v@.contains(x),
        r is Some ==> is_first_index(v@, x, r->Some_0 as int),
{
    let mut i: usize = 0;
    while i < v.len()
        invariant
            i <= v@.len(),
            forall|j: int| 0 <= j < i ==> v@[j] != x,
        decreases v@.len() - i,
    {
        if v[i] == x {
            return Some(i);
        }
        i = i + 1;
    }
    None
}

/// A position that is first for `x` is the one `first_index` picks.
proof fn lemma_first_index_unique(s: Seq<AccountId>, x: AccountId, k: int)
    requires
        is_first_index(s, x, k),
    ensures
        first_index(s, x) == k,
{
    let c = first_index(s, x);
    lemma_first_index(s, x);
    if c < k {
        assert(s[c] != x);
    } else if k < c {
        assert(s[k] != x);
    }
}

/// The registry: the single, ordered, bounded list of member identities.
pub struct Pallet {
    members: BoundedVec<AccountId, MaxMembers>,
}

impl View for Pallet {
    type V = Seq<AccountId>;

    closed spec fn view(&self) -> Seq<AccountId> {
        members_of(self.members)
    }
}

impl Pallet {
    /// The list never holds more than `MAX_MEMBERS` entries.
    #[verifier::type_invariant]
    spec fn within_capacity(self) -> bool {
        members_of(self.members).len() <= MAX_MEMBERS
    }

    /// An empty registry, as at genesis.
    pub fn new() -> (r: Pallet)
        ensures
            r@ == Seq::<AccountId>::empty(),
    {
        Pallet { members: bounded_new() }
    }

    /// The current members, in insertion order.
    pub fn get_members(&self) -> (r: Vec<AccountId>)
        ensures
            r@ == self@,
    {
        let entries = bounded_entries(&self.members);
        let mut out: Vec<AccountId> = Vec::new();
        let mut i: usize = 0;
        while i < entries.len()
            invariant
                entries@ == self@,
                i <= entries@.len(),
                out@ == entries@.subrange(0, i as int),
            decreases entries@.len() - i,
        {
            out.push(entries[i]);
            i = i + 1;
            assert(out@ =~= entries@.subrange(0, i as int));
        }
        assert(out@ =~= entries@);
        out
    }

    /// Appends `member` at the end of the list when `caller` is a verified
    /// account and the list is below capacity; duplicates are not refused.
    /// On success returns the `NewMemberAdded` event stamped with `now`.
    pub fn add_member(
        &mut self,
        caller: Option<AccountId>,
        member: AccountId,
        now: BlockNumber,
    ) -> (r: Result<Event, Error>)
        ensures
            final(self)@.len() <= MAX_MEMBERS,
            (final(self)@, r) == add_outcome(old(self)@, caller, member, now),
    {
        proof {
            use_type_invariant(&*self);
        }
        if caller.is_none() {
            return Err(Error::NotAuthorized);
        }
        // The list is moved out while it changes, so that the capacity
        // invariant is checked on the finished list only.
        let mut members = bounded_new();
        core::mem::swap(&mut self.members, &mut members);
        let pushed = bounded_try_push(&mut members, member);
        core::mem::swap(&mut self.members, &mut members);
        match pushed {
            Ok(()) => Ok(Event::NewMemberAdded(now, member)),
            Err(_) => Err(Error::MembersLimitExceeded),
        }
    }

    /// Takes the first entry equal to `member` out of the list, keeping the
    /// order of the others, when `caller` is a verified account and `member`
    /// is listed. On success returns the `MemberRemoved` event stamped with
    /// `now`.
    pub fn remove_member(
        &mut self,
        caller: Option<AccountId>,
        member: AccountId,
        now: BlockNumber,
    ) -> (r: Result<Event, Error>)
        ensures
            final(self)@.len() <= MAX_MEMBERS,
            (final(self)@, r) == remove_outcome(old(self)@, caller, member, now),
    {
        proof {
            use_type_invariant(&*self);
        }
        if caller.is_none() {
            return Err(Error::NotAuthorized);
        }
        match position(bounded_entries(&self.members), member) {
            Some(index) => {
                proof {
                    lemma_first_index_unique(self@, member, index as int);
                }
                let mut members = bounded_new();
                core::mem::swap(&mut self.members, &mut members);
                bounded_remove(&mut members, index);
                core::mem::swap(&mut self.members, &mut members);
                Ok(Event::MemberRemoved(now, member))
            },
            None => Err(Error::MemberNotFound),
        }
    }
}

} // verus!
