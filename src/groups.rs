//! The group reconciliation engine: group creation with its creator's
//! membership, invitations, acceptance, leaving with the removal of emptied
//! groups, and the split of a user's memberships into groups and invitations.
use vstd::prelude::*;

use crate::models::{Group, UserToGroup};
use crate::relation::RelationError;
use crate::store::{
    group_with_id, groups_for_ids, has_group, has_membership, memberships_of_group, memberships_of_user,
    lemma_group_has_member, memberships_wf, Store,
};

verus! {

/// The groups of a user: those whose invitation it accepted, and those it
/// is invited to.
#[derive(Debug, Clone)]
pub struct GroupViews {
    pub member: Vec<Group>,
    pub invited: Vec<Group>,
}

/// The group ids of the memberships whose acceptance flag is `accepted`, in
/// order.
pub open spec fn ids_with_flag(ms: Seq<UserToGroup>, accepted: bool) -> Seq<i32>
    decreases ms.len(),
{
    if ms.len() == 0 {
        Seq::empty()
    } else {
        let prev = ids_with_flag(ms.drop_last(), accepted);
        if ms.last().accepted_invite == accepted {
            prev.push(ms.last().group_id)
        } else {
            prev
        }
    }
}

/// Whether the user holds a membership of the group that is not yet accepted.
pub open spec fn has_pending(ms: Seq<UserToGroup>, user_id: i32, group_id: i32) -> bool {
    exists|i: int|
        0 <= i < ms.len() && ms[i].user_id == user_id && ms[i].group_id == group_id
            && !ms[i].accepted_invite
}

/// The group ids of the memberships with the flag, in order.
fn group_ids_with_flag(ms: &Vec<UserToGroup>, accepted: bool) -> (r: Vec<i32>)
    ensures
        r@ == ids_with_flag(ms@, accepted),
{
    let mut r: Vec<i32> = Vec::new();
    let mut i: usize = 0;
    while i < ms.len()
        invariant
            i <= ms@.len(),
            r@ == ids_with_flag(ms@.subrange(0, i as int), accepted),
        decreases ms@.len() - i,
    {
        assert(ms@.subrange(0, i + 1).drop_last() =~= ms@.subrange(0, i as int));
        if ms[i].accepted_invite == accepted {
            r.push(ms[i].group_id);
        }
        i = i + 1;
    }
    assert(ms@.subrange(0, i as int) =~= ms@);
    r
}

/// Splits the user's memberships into accepted groups and invitations, and
/// resolves the ids to groups; an id whose group no longer exists is left
/// out.
pub fn reconcile_groups(store: &Store, user_id: i32) -> (r: GroupViews)
    requires
        store.wf(),
    ensures
        r.member@ == groups_for_ids(
            store.group_records(),
            ids_with_flag(memberships_of_user(store.membership_records(), user_id), true),
        ),
        r.invited@ == groups_for_ids(
            store.group_records(),
            ids_with_flag(memberships_of_user(store.membership_records(), user_id), false),
        ),
{
    let ms = store.find_all_user_groups_of_user(user_id);
    let accepted = group_ids_with_flag(&ms, true);
    let pending = group_ids_with_flag(&ms, false);
    GroupViews { member: store.find_groups_by_ids(&accepted), invited: store.find_groups_by_ids(&pending) }
}

/// Creates a group named `name` with `creator` as its first, accepted member.
/// An empty name is refused. Should the membership not be stored, the group
/// is deleted again, so that no group is left without its creator.
pub fn create_group_with_creator(store: &mut Store, creator: i32, name: &str) -> (r: Result<
    Group,
    RelationError,
>)
    requires
        old(store).wf(),
    ensures
        final(store).wf(),
        name@.len() == 0 ==> r == Err::<Group, RelationError>(RelationError::Validation),
        name@.len() > 0 && !old(store).can_create_group() ==> r == Err::<Group, RelationError>(
            RelationError::Storage,
        ),
        name@.len() > 0 && old(store).can_create_group() ==> r is Ok,
        r matches Ok(g) ==> g.name@ == name@ && !has_group(old(store).group_records(), g.id)
            && memberships_of_group(old(store).membership_records(), g.id).len() == 0
            && final(store).group_records() == old(store).group_records().push(g)
            && final(store).membership_records() == old(store).membership_records().push(
            UserToGroup { user_id: creator, group_id: g.id, accepted_invite: true },
        ),
        r matches Ok(g) ==> has_group(final(store).group_records(), g.id),
        r is Err ==> final(store).group_records() == old(store).group_records()
            && final(store).membership_records() == old(store).membership_records(),
        final(store).counters().0 == old(store).counters().0,
        final(store).friend_records() == old(store).friend_records(),
        final(store).user_records() == old(store).user_records(),
{
    if name.is_empty() {
        return Err(RelationError::Validation);
    }
    let group = match store.create_group(name) {
        Ok(g) => g,
        Err(e) => {
            return Err(e);
        },
    };
    proof {
        assert(!has_membership(old(store).membership_records(), creator, group.id)) by {
            if has_membership(old(store).membership_records(), creator, group.id) {
                let i = choose|i: int|
                    0 <= i < old(store).membership_records().len()
                        && old(store).membership_records()[i].user_id == creator
                        && old(store).membership_records()[i].group_id == group.id;
                reveal(Seq::filter);
                lemma_group_has_member(old(store).membership_records(), group.id, i);
            }
        }
        assert(has_group(store.group_records(), group.id)) by {
            assert(store.group_records()[store.group_records().len() - 1] == group);
        }
    }
    match store.create_user_group(creator, group.id, true) {
        Ok(_) => Ok(group),
        Err(e) => {
            let _ = store.delete_group(group.id);
            Err(e)
        },
    }
}

/// Invites `target` to the group; refused when it already holds a
/// membership of the group, and otherwise when the group does not exist.
pub fn invite_user(store: &mut Store, target: i32, group_id: i32) -> (r: Result<UserToGroup, RelationError>)
    requires
        old(store).wf(),
    ensures
        final(store).wf(),
        has_membership(old(store).membership_records(), target, group_id) ==> r == Err::<
            UserToGroup,
            RelationError,
        >(RelationError::AlreadyMember),
        !has_membership(old(store).membership_records(), target, group_id) && !has_group(
            old(store).group_records(),
            group_id,
        ) ==> r == Err::<UserToGroup, RelationError>(RelationError::NotFound),
        has_group(old(store).group_records(), group_id) && !has_membership(
            old(store).membership_records(),
            target,
            group_id,
        ) ==> r == Ok::<UserToGroup, RelationError>(
            (UserToGroup { user_id: target, group_id, accepted_invite: false }),
        ) && final(store).membership_records() == old(store).membership_records().push(r->Ok_0),
        r is Ok ==> has_pending(final(store).membership_records(), target, group_id),
        r is Err ==> final(store).membership_records() == old(store).membership_records(),
        final(store).friend_records() == old(store).friend_records(),
        final(store).group_records() == old(store).group_records(),
        final(store).user_records() == old(store).user_records(),
        final(store).counters() == old(store).counters(),
{
    let r = store.create_user_group(target, group_id, false);
    proof {
        if r is Ok {
            let ms = final(store).membership_records();
            assert(ms[ms.len() - 1] == UserToGroup { user_id: target, group_id, accepted_invite: false });
        }
    }
    r
}

/// Accepts the user's pending invitation to the group.
pub fn accept_invite(store: &mut Store, user_id: i32, group_id: i32) -> (r: Result<(), RelationError>)
    requires
        old(store).wf(),
    ensures
        final(store).wf(),
        r is Ok <==> has_pending(old(store).membership_records(), user_id, group_id),
        r is Ok ==> has_membership(final(store).membership_records(), user_id, group_id),
        r is Err ==> r == Err::<(), RelationError>(RelationError::NotFound)
            && final(store).membership_records() == old(store).membership_records(),
        r is Ok ==> exists|i: int|
            0 <= i < old(store).membership_records().len() && old(store).membership_records()[i].user_id
                == user_id && old(store).membership_records()[i].group_id == group_id
                    && final(store).membership_records() == old(store).membership_records().update(
                i,
                UserToGroup { user_id, group_id, accepted_invite: true },
            ),
        final(store).friend_records() == old(store).friend_records(),
        final(store).group_records() == old(store).group_records(),
        final(store).user_records() == old(store).user_records(),
        final(store).counters() == old(store).counters(),
{
    let ms = store.find_all_user_groups_of_user(user_id);
    let mut pending = false;
    let mut i: usize = 0;
    while i < ms.len()
        invariant
            i <= ms@.len(),
            ms@ == memberships_of_user(store.membership_records(), user_id),
            pending ==> has_pending(store.membership_records(), user_id, group_id),
            !pending ==> forall|k: int|
                0 <= k < i ==> !(#[trigger] ms@[k].group_id == group_id && !ms@[k].accepted_invite),
        decreases ms@.len() - i,
    {
        if ms[i].group_id == group_id && !ms[i].accepted_invite {
            proof {
                broadcast use vstd::seq_lib::group_filter_ensures;
                assert(ms@.contains(ms@[i as int]));
                assert(ms@[i as int].user_id == user_id);
                let recs = store.membership_records();
                recs.lemma_filter_contains_rev(|m: UserToGroup| m.user_id == user_id, ms@[i as int]);
                let k = choose|k: int| 0 <= k < recs.len() && recs[k] == ms@[i as int];
                assert(recs[k].user_id == user_id && recs[k].group_id == group_id
                    && !recs[k].accepted_invite);
            }
            pending = true;
        }
        i = i + 1;
    }
    if !pending {
        proof {
            if has_pending(store.membership_records(), user_id, group_id) {
                let k = choose|k: int|
                    0 <= k < store.membership_records().len() && store.membership_records()[k].user_id
                        == user_id && store.membership_records()[k].group_id == group_id
                        && !store.membership_records()[k].accepted_invite;
                broadcast use vstd::seq_lib::group_filter_ensures;
                assert(store.membership_records()[k].user_id == user_id);
                assert(ms@.contains(store.membership_records()[k]));
            }
        }
        return Err(RelationError::NotFound);
    }
    match store.update_user_group(user_id, group_id, true) {
        Ok(_) => {
            proof {
                let i = choose|i: int|
                    0 <= i < old(store).membership_records().len()
                        && old(store).membership_records()[i].user_id
                        == user_id && old(store).membership_records()[i].group_id == group_id
                        && store.membership_records() == old(store).membership_records().update(
                        i,
                        UserToGroup { user_id, group_id, accepted_invite: true },
                    );
                assert(store.membership_records()[i].user_id == user_id);
            }
            Ok(())
        },
        Err(e) => Err(e),
    }
}

/// Removes the user's membership of the group (leaving it, or declining the
/// invitation). When no membership of the group is left, the group itself is
/// deleted; the result tells whether that happened.
pub fn leave_group(store: &mut Store, user_id: i32, group_id: i32) -> (r: Result<bool, RelationError>)
    requires
        old(store).wf(),
    ensures
        final(store).wf(),
        r is Ok <==> has_membership(old(store).membership_records(), user_id, group_id),
        r is Err ==> r == Err::<bool, RelationError>(RelationError::NotFound)
            && final(store).membership_records()
            == old(store).membership_records() && final(store).group_records() == old(store).group_records(),
        r is Ok ==> !has_membership(final(store).membership_records(), user_id, group_id),
        r is Ok ==> exists|i: int|
            0 <= i < old(store).membership_records().len() && old(store).membership_records()[i].user_id
                == user_id && old(store).membership_records()[i].group_id == group_id
                    && final(store).membership_records() == old(store).membership_records().remove(i),
        r matches Ok(deleted)
            ==> (deleted <==> memberships_of_group(final(store).membership_records(), group_id).len()
            == 0 && has_group(old(store).group_records(), group_id)),
        r is Ok && memberships_of_group(final(store).membership_records(), group_id).len() == 0
            ==> !has_group(
            final(store).group_records(),
            group_id,
        ),
        r is Ok && memberships_of_group(final(store).membership_records(), group_id).len() > 0
            ==> final(store).group_records() == old(store).group_records(),
        final(store).friend_records() == old(store).friend_records(),
        final(store).user_records() == old(store).user_records(),
        final(store).counters() == old(store).counters(),
{
    match store.delete_user_group(user_id, group_id) {
        Err(e) => Err(e),
        Ok(_) => {
            let rest = store.find_all_user_groups_of_group(group_id);
            if rest.len() == 0 {
                Ok(store.delete_group(group_id).is_ok())
            } else {
                Ok(false)
            }
        },
    }
}

/// The ids collected with a flag all come from memberships with that flag.
proof fn lemma_ids_with_flag_source(ms: Seq<UserToGroup>, accepted: bool, id: i32)
    requires
        ids_with_flag(ms, accepted).contains(id),
    ensures
        exists|k: int| 0 <= k < ms.len() && ms[k].group_id == id && ms[k].accepted_invite == accepted,
    decreases ms.len(),
{
    let prev = ids_with_flag(ms.drop_last(), accepted);
    if ms.last().accepted_invite == accepted && ms.last().group_id == id {
        assert(ms[ms.len() - 1].group_id == id);
    } else {
        if ms.last().accepted_invite == accepted {
            let j = choose|j: int| 0 <= j < ids_with_flag(ms, accepted).len()
                && ids_with_flag(ms, accepted)[j] == id;
            assert(prev.push(ms.last().group_id)[j] == id);
            assert(j < prev.len());
            assert(prev[j] == id);
        }
        assert(prev.contains(id));
        lemma_ids_with_flag_source(ms.drop_last(), accepted, id);
        let k = choose|k: int|
            0 <= k < ms.drop_last().len() && ms.drop_last()[k].group_id == id
                && ms.drop_last()[k].accepted_invite == accepted;
        assert(ms[k] == ms.drop_last()[k]);
    }
}

/// A membership with the flag contributes its group id.
proof fn lemma_ids_with_flag_member(ms: Seq<UserToGroup>, accepted: bool, k: int)
    requires
        0 <= k < ms.len(),
        ms[k].accepted_invite == accepted,
    ensures
        ids_with_flag(ms, accepted).contains(ms[k].group_id),
    decreases ms.len(),
{
    let prev = ids_with_flag(ms.drop_last(), accepted);
    if k == ms.len() - 1 {
        assert(prev.push(ms.last().group_id)[prev.len() as int] == ms[k].group_id);
    } else {
        assert(ms.drop_last()[k] == ms[k]);
        lemma_ids_with_flag_member(ms.drop_last(), accepted, k);
        let j = choose|j: int| 0 <= j < prev.len() && prev[j] == ms[k].group_id;
        if ms.last().accepted_invite == accepted {
            assert(prev.push(ms.last().group_id)[j] == prev[j]);
        }
    }
}

/// A membership of the user is among the user's memberships.
proof fn lemma_member_of_user(ms: Seq<UserToGroup>, user_id: i32, k: int)
    requires
        0 <= k < ms.len(),
        ms[k].user_id == user_id,
    ensures
        memberships_of_user(ms, user_id).contains(ms[k]),
{
    ms.lemma_filter_contains(|m: UserToGroup| m.user_id == user_id, k);
}

/// Each of the user's memberships is a stored membership of the user.
proof fn lemma_of_user_source(ms: Seq<UserToGroup>, user_id: i32, j: int)
    requires
        0 <= j < memberships_of_user(ms, user_id).len(),
    ensures
        memberships_of_user(ms, user_id)[j].user_id == user_id,
        ms.contains(memberships_of_user(ms, user_id)[j]),
{
    broadcast use vstd::seq_lib::group_filter_ensures;

    let f = memberships_of_user(ms, user_id);
    assert(f.contains(f[j]));
    ms.lemma_filter_contains_rev(|m: UserToGroup| m.user_id == user_id, f[j]);
}

/// The groups found for a list of ids are stored groups whose ids are listed.
proof fn lemma_groups_for_ids_source(groups: Seq<Group>, ids: Seq<i32>, k: int)
    requires
        0 <= k < groups_for_ids(groups, ids).len(),
    ensures
        has_group(groups, groups_for_ids(groups, ids)[k].id),
        ids.contains(groups_for_ids(groups, ids)[k].id),
    decreases ids.len(),
{
    let prev = groups_for_ids(groups, ids.drop_last());
    let id = ids.last();
    if has_group(groups, id) && k == prev.len() {
        let c = choose|i: int| 0 <= i < groups.len() && groups[i].id == id;
        assert(groups_for_ids(groups, ids)[k] == groups[c]);
        assert(ids[ids.len() - 1] == id);
    } else {
        assert(groups_for_ids(groups, ids)[k] == prev[k]);
        lemma_groups_for_ids_source(groups, ids.drop_last(), k);
        let j = choose|j: int| 0 <= j < ids.drop_last().len() && ids.drop_last()[j] == prev[k].id;
        assert(ids[j] == ids.drop_last()[j]);
    }
}

/// A listed id of a stored group yields that group.
proof fn lemma_groups_for_ids_found(groups: Seq<Group>, ids: Seq<i32>, id: i32)
    requires
        ids.contains(id),
        has_group(groups, id),
    ensures
        groups_for_ids(groups, ids).contains(group_with_id(groups, id)),
        group_with_id(groups, id).id == id,
    decreases ids.len(),
{
    let prev = groups_for_ids(groups, ids.drop_last());
    if ids.last() == id {
        assert(groups_for_ids(groups, ids) == prev.push(group_with_id(groups, id)));
        assert(groups_for_ids(groups, ids)[prev.len() as int] == group_with_id(groups, id));
    } else {
        let j = choose|j: int| 0 <= j < ids.len() && ids[j] == id;
        assert(j < ids.len() - 1);
        assert(ids.drop_last()[j] == id);
        lemma_groups_for_ids_found(groups, ids.drop_last(), id);
        let m = choose|m: int| 0 <= m < prev.len() && prev[m] == group_with_id(groups, id);
        if has_group(groups, ids.last()) {
            assert(prev.push(group_with_id(groups, ids.last()))[m] == prev[m]);
        }
    }
}

/// The groups a user sees under a flag: those of the user's memberships with
/// that flag.
pub open spec fn group_view(
    groups: Seq<Group>,
    ms: Seq<UserToGroup>,
    user_id: i32,
    accepted: bool,
) -> Seq<Group> {
    groups_for_ids(groups, ids_with_flag(memberships_of_user(ms, user_id), accepted))
}

/// Whether a listed group has the id.
pub open spec fn lists_group(s: Seq<Group>, id: i32) -> bool {
    exists|k: int| 0 <= k < s.len() && s[k].id == id
}

/// The user sees a stored group under a flag exactly when it holds a
/// membership of the group with that flag.
proof fn lemma_group_view(groups: Seq<Group>, ms: Seq<UserToGroup>, user_id: i32, accepted: bool, id: i32)
    requires
        has_group(groups, id),
    ensures
        lists_group(group_view(groups, ms, user_id, accepted), id) <==> exists|k: int|
            0 <= k < ms.len() && ms[k].user_id == user_id && ms[k].group_id == id && ms[k].accepted_invite
                == accepted,
{
    let mine = memberships_of_user(ms, user_id);
    let ids = ids_with_flag(mine, accepted);
    let view = group_view(groups, ms, user_id, accepted);
    if exists|k: int|
        0 <= k < ms.len() && ms[k].user_id == user_id && ms[k].group_id == id && ms[k].accepted_invite
            == accepted {
        let k = choose|k: int|
            0 <= k < ms.len() && ms[k].user_id == user_id && ms[k].group_id == id && ms[k].accepted_invite
                == accepted;
        lemma_member_of_user(ms, user_id, k);
        let j = choose|j: int| 0 <= j < mine.len() && mine[j] == ms[k];
        lemma_ids_with_flag_member(mine, accepted, j);
        lemma_groups_for_ids_found(groups, ids, id);
        let m = choose|m: int| 0 <= m < view.len() && view[m] == group_with_id(groups, id);
        assert(view[m].id == id);
    }
    if lists_group(view, id) {
        let m = choose|m: int| 0 <= m < view.len() && view[m].id == id;
        lemma_groups_for_ids_source(groups, ids, m);
        lemma_ids_with_flag_source(mine, accepted, id);
        let j = choose|j: int| 0 <= j < mine.len() && mine[j].group_id == id
            && mine[j].accepted_invite == accepted;
        lemma_of_user_source(ms, user_id, j);
        let k = choose|k: int| 0 <= k < ms.len() && ms[k] == mine[j];
        assert(ms[k].user_id == user_id && ms[k].group_id == id && ms[k].accepted_invite == accepted);
    }
}

/// A group that its creator has just formed shows under the creator's
/// groups, and never under the creator's invitations.
pub proof fn created_group_is_member_view(
    groups: Seq<Group>,
    ms: Seq<UserToGroup>,
    creator: i32,
    group: Group,
)
    requires
        !has_group(groups, group.id),
        memberships_of_group(ms, group.id).len() == 0,
    ensures
        lists_group(
            group_view(
                groups.push(group),
                ms.push(UserToGroup { user_id: creator, group_id: group.id, accepted_invite: true }),
                creator,
                true,
            ),
            group.id,
        ),
        !lists_group(
            group_view(
                groups.push(group),
                ms.push(UserToGroup { user_id: creator, group_id: group.id, accepted_invite: true }),
                creator,
                false,
            ),
            group.id,
        ),
{
    let g2 = groups.push(group);
    let m = UserToGroup { user_id: creator, group_id: group.id, accepted_invite: true };
    let ms2 = ms.push(m);
    assert(g2[groups.len() as int] == group);
    lemma_group_view(g2, ms2, creator, true, group.id);
    lemma_group_view(g2, ms2, creator, false, group.id);
    assert(ms2[ms.len() as int] == m);
    assert forall|k: int| 0 <= k < ms2.len()
        && ms2[k].group_id == group.id implies ms2[k].accepted_invite by {
        if k < ms.len() {
            assert(ms2[k] == ms[k]);
            lemma_group_has_member(ms, group.id, k);
        }
    }
}

/// Inviting a user to an existing group shows the group under the user's
/// invitations; once the user accepts, it shows under the user's groups and
/// no longer under the invitations.
pub proof fn invite_then_accept_moves_group(
    groups: Seq<Group>,
    before: Seq<UserToGroup>,
    invited: Seq<UserToGroup>,
    accepted: Seq<UserToGroup>,
    user_id: i32,
    group_id: i32,
)
    requires
        memberships_wf(before),
        has_group(groups, group_id),
        !has_membership(before, user_id, group_id),
        invited == before.push(UserToGroup { user_id, group_id, accepted_invite: false }),
        exists|i: int|
            0 <= i < invited.len() && invited[i].user_id == user_id && invited[i].group_id == group_id
                && accepted == invited.update(i, UserToGroup { user_id, group_id, accepted_invite: true }),
    ensures
        lists_group(group_view(groups, invited, user_id, false), group_id),
        !lists_group(group_view(groups, invited, user_id, true), group_id),
        lists_group(group_view(groups, accepted, user_id, true), group_id),
        !lists_group(group_view(groups, accepted, user_id, false), group_id),
{
    let n = before.len() as int;
    let i = choose|i: int|
        0 <= i < invited.len() && invited[i].user_id == user_id && invited[i].group_id == group_id
            && accepted == invited.update(i, UserToGroup { user_id, group_id, accepted_invite: true });
    assert(i == n) by {
        if i < n {
            assert(before[i] == invited[i]);
        }
    }
    assert(invited[n].user_id == user_id && invited[n].group_id == group_id);
    assert(accepted[n].user_id == user_id && accepted[n].group_id == group_id);
    assert forall|k: int| 0 <= k < n implies !(#[trigger] invited[k].user_id == user_id && invited[k].group_id
        == group_id) && !(accepted[k].user_id == user_id && accepted[k].group_id == group_id) by {
        assert(invited[k] == before[k]);
        assert(accepted[k] == before[k]);
    }
    lemma_group_view(groups, invited, user_id, false, group_id);
    lemma_group_view(groups, invited, user_id, true, group_id);
    lemma_group_view(groups, accepted, user_id, true, group_id);
    lemma_group_view(groups, accepted, user_id, false, group_id);
}

/// A group that is no longer stored shows in nobody's views: not under any
/// user's groups, nor under any user's invitations.
pub proof fn deleted_group_leaves_views(
    groups: Seq<Group>,
    ms: Seq<UserToGroup>,
    group_id: i32,
    user_id: i32,
    accepted: bool,
)
    requires
        !has_group(groups, group_id),
    ensures
        !lists_group(group_view(groups, ms, user_id, accepted), group_id),
{
    let view = group_view(groups, ms, user_id, accepted);
    if lists_group(view, group_id) {
        let m = choose|m: int| 0 <= m < view.len() && view[m].id == group_id;
        lemma_groups_for_ids_source(groups, ids_with_flag(memberships_of_user(ms, user_id), accepted), m);
    }
}

} // verus!
