//! Properties of the registry that relate several operations or hold of every
//! input, stated over the model of `add_member` and `remove_member`.
use crate::bounded::{AccountId, BlockNumber, MAX_MEMBERS};
use crate::registry::{add_outcome, first_index, lemma_first_index, remove_outcome, Error, Event};
use vstd::prelude::*;

verus! {

/// The list after `caller` adds each identity of `ids` in turn, starting from `s`.
pub open spec fn after_adds(
    s: Seq<AccountId>,
    caller: AccountId,
    ids: Seq<AccountId>,
    now: BlockNumber,
) -> Seq<AccountId>
    decreases ids.len(),
{
    if ids.len() == 0 {
        s
    } else {
        add_outcome(after_adds(s, caller, ids.drop_last(), now), Some(caller), ids.last(), now).0
    }
}

/// However many additions a verified caller makes, the list never grows past
/// `MAX_MEMBERS`; while there is room every identity is appended in order, and
/// once the list is full a further addition fails with `MembersLimitExceeded`
/// and changes nothing.
pub proof fn lemma_adds_stay_within_capacity(
    s: Seq<AccountId>,
    caller: AccountId,
    ids: Seq<AccountId>,
    extra: AccountId,
    now: BlockNumber,
)
    requires
        s.len() <= MAX_MEMBERS,
    ensures
        after_adds(s, caller, ids, now).len() <= MAX_MEMBERS,
        s.len() + ids.len() <= MAX_MEMBERS ==> after_adds(s, caller, ids, now) == s + ids,
        s.len() + ids.len() >= MAX_MEMBERS ==> after_adds(s, caller, ids, now).len()
            == MAX_MEMBERS,
        s.len() + ids.len() >= MAX_MEMBERS ==> add_outcome(
            after_adds(s, caller, ids, now),
            Some(caller),
            extra,
            now,
        ) == (after_adds(s, caller, ids, now), Err::<Event, Error>(Error::MembersLimitExceeded)),
    decreases ids.len(),
{
    if ids.len() > 0 {
        lemma_adds_stay_within_capacity(s, caller, ids.drop_last(), extra, now);
        if s.len() + ids.len() <= MAX_MEMBERS {
            assert(s + ids =~= (s + ids.drop_last()).push(ids.last()));
        }
    } else {
        assert(s + ids =~= s);
    }
}

/// Removing an identity that is not listed fails with `MemberNotFound` and
/// leaves the list unchanged.
pub proof fn lemma_remove_absent_fails(
    s: Seq<AccountId>,
    caller: AccountId,
    member: AccountId,
    now: BlockNumber,
)
    requires
        !s.contains(member),
    ensures
        remove_outcome(s, Some(caller), member, now) == (s, Err::<Event, Error>(Error::MemberNotFound)),
{
}

/// Without a verified caller both operations fail with `NotAuthorized` and
/// leave the list unchanged.
pub proof fn lemma_unauthorized_is_noop(s: Seq<AccountId>, member: AccountId, now: BlockNumber)
    ensures
        add_outcome(s, None, member, now) == (s, Err::<Event, Error>(Error::NotAuthorized)),
        remove_outcome(s, None, member, now) == (s, Err::<Event, Error>(Error::NotAuthorized)),
{
}

/// Removing an entry keeps every other entry, in the same relative order:
/// entries before the first occurrence of `member` keep their positions and
/// entries after it each move one place down.
pub proof fn lemma_remove_preserves_order(
    s: Seq<AccountId>,
    caller: AccountId,
    member: AccountId,
    now: BlockNumber,
)
    requires
        s.contains(member),
    ensures
        ({
            let k = first_index(s, member);
            let r = remove_outcome(s, Some(caller), member, now).0;
            &&& 0 <= k < s.len()
            &&& r.len() == s.len() - 1
            &&& forall|i: int| 0 <= i < k ==> #[trigger] r[i] == s[i]
            &&& forall|i: int| k <= i < r.len() ==> #[trigger] r[i] == s[i + 1]
        }),
{
    lemma_first_index(s, member);
}

/// Adding the same identity twice while there is room succeeds twice and
/// lists it twice; removing it once then takes out only its first occurrence,
/// so it stays listed.
pub proof fn lemma_duplicates_permitted(
    s: Seq<AccountId>,
    caller: AccountId,
    x: AccountId,
    now: BlockNumber,
)
    requires
        s.len() + 2 <= MAX_MEMBERS,
    ensures
        ({
            let (s1, r1) = add_outcome(s, Some(caller), x, now);
            let (s2, r2) = add_outcome(s1, Some(caller), x, now);
            let s3 = remove_outcome(s2, Some(caller), x, now).0;
            &&& r1 == Ok::<Event, Error>(Event::NewMemberAdded(now, x))
            &&& r2 == Ok::<Event, Error>(Event::NewMemberAdded(now, x))
            &&& s2 == s.push(x).push(x)
            &&& s3.contains(x)
            &&& !s.contains(x) ==> s3 == s.push(x)
        }),
{
    let s2 = s.push(x).push(x);
    let n = s.len() as int;
    assert(s2[n] == x);
    lemma_first_index(s2, x);
    let k = first_index(s2, x);
    let s3 = s2.remove(k);
    assert(k <= n);
    assert(s3[n] == x);
    if !s.contains(x) {
        if k < n {
            assert(s[k] == x);
        }
        assert(s3 =~= s.push(x));
    }
}

} // verus!
