//! The friend reconciliation engine: classifies the relation records of a
//! user, together with the user directory, into friends, incoming requests,
//! outgoing requests and unrelated users.
use vstd::multiset::Multiset;
use vstd::prelude::*;

use crate::models::{User, UserToUserFriend};
use crate::relation::{
    resolve_sides, spec_canonical_pair, spec_counterpart, spec_my_flag, spec_request_record, spec_their_flag,
    touches, RelationError,
};
use crate::store::{friends_wf, has_pair, relations_of};

verus! {

/// The four lists that a user sees, rebuilt from scratch on every refresh.
#[derive(Debug, Clone)]
pub struct FriendViews {
    pub friends: Vec<User>,
    pub incoming: Vec<User>,
    pub outgoing: Vec<User>,
    pub unrelated: Vec<User>,
}

/// The working state of a classification pass: the users not yet placed,
/// then friends, incoming requests and outgoing requests.
pub type Partition = (Seq<User>, Seq<User>, Seq<User>, Seq<User>);

/// Whether a user with the id is listed.
pub open spec fn has_id(s: Seq<User>, id: i32) -> bool {
    exists|k: int| 0 <= k < s.len() && s[k].id == id
}

/// The first position of a user with the id; meaningful where `has_id(s, id)`.
pub open spec fn first_index(s: Seq<User>, id: i32) -> int {
    choose|i: int| 0 <= i < s.len() && s[i].id == id && forall|j: int| 0 <= j < i ==> s[j].id != id
}

/// The users other than `self_id`, in directory order.
pub open spec fn others(users: Seq<User>, self_id: i32) -> Seq<User> {
    users.filter(|u: User| u.id != self_id)
}

/// Adds `u` to the list that the viewer's and the counterpart's flags select:
/// friends when both accepted, outgoing requests when only the viewer did,
/// incoming requests otherwise.
pub open spec fn place(st: Partition, u: User, mine: bool, theirs: bool) -> Partition {
    if mine {
        if theirs {
            (st.0, st.1.push(u), st.2, st.3)
        } else {
            (st.0, st.1, st.2, st.3.push(u))
        }
    } else {
        (st.0, st.1, st.2.push(u), st.3)
    }
}

/// Places the counterpart of one relation record in the list that the two
/// acceptance flags select. The counterpart is taken from the unplaced users;
/// should an earlier record have placed it already, it is moved from that
/// list, so that the last record of a counterpart decides. A record that does
/// not involve the viewer, or whose counterpart is not listed anywhere,
/// changes nothing.
pub open spec fn classify_step(st: Partition, self_id: i32, rel: UserToUserFriend) -> Partition {
    let c = spec_counterpart(rel, self_id);
    let mine = spec_my_flag(rel, self_id);
    let theirs = spec_their_flag(rel, self_id);
    if !touches(rel, self_id) {
        st
    } else if has_id(st.0, c) {
        let i = first_index(st.0, c);
        place((st.0.remove(i), st.1, st.2, st.3), st.0[i], mine, theirs)
    } else if has_id(st.1, c) {
        let i = first_index(st.1, c);
        place((st.0, st.1.remove(i), st.2, st.3), st.1[i], mine, theirs)
    } else if has_id(st.2, c) {
        let i = first_index(st.2, c);
        place((st.0, st.1, st.2.remove(i), st.3), st.2[i], mine, theirs)
    } else if has_id(st.3, c) {
        let i = first_index(st.3, c);
        place((st.0, st.1, st.2, st.3.remove(i)), st.3[i], mine, theirs)
    } else {
        st
    }
}

/// The classification of `self_id`'s view after the records `rels`, taken in
/// order; the users left unplaced are the unrelated ones.
pub open spec fn classify_all(self_id: i32, users: Seq<User>, rels: Seq<UserToUserFriend>) -> Partition
    decreases rels.len(),
{
    if rels.len() == 0 {
        (others(users, self_id), Seq::empty(), Seq::empty(), Seq::empty())
    } else {
        classify_step(classify_all(self_id, users, rels.drop_last()), self_id, rels.last())
    }
}

/// A record that involves the user with neither side accepted.
pub open spec fn is_broken(rel: UserToUserFriend, self_id: i32) -> bool {
    touches(rel, self_id) && !rel.accepted_user_one && !rel.accepted_user_two
}

/// Whether some record involving the user has neither side accepted.
pub open spec fn has_broken(rels: Seq<UserToUserFriend>, self_id: i32) -> bool {
    exists|k: int| 0 <= k < rels.len() && is_broken(#[trigger] rels[k], self_id)
}

impl FriendViews {
    /// The lists as a partition.
    pub open spec fn parts(&self) -> Partition {
        (self.unrelated@, self.friends@, self.incoming@, self.outgoing@)
    }
}

/// The position of the first user with the id, if any.
pub(crate) fn find_user(s: &Vec<User>, id: i32) -> (r: Option<usize>)
    ensures
        r is None <==> !has_id(s@, id),
        r matches Some(i) ==> i < s@.len() && i == first_index(s@, id),
{
    let mut i: usize = 0;
    while i < s.len()
        invariant
            i <= s@.len(),
            forall|k: int| 0 <= k < i ==> #[trigger] s@[k].id != id,
        decreases s@.len() - i,
    {
        if s[i].id == id {
            assert(has_id(s@, id));
            let ghost c = first_index(s@, id);
            assert(s@[i as int].id == id && forall|j: int| 0 <= j < i ==> s@[j].id != id);
            assert(c == i as int);
            return Some(i);
        }
        i = i + 1;
    }
    None
}

/// The users other than `self_id`, in directory order.
fn users_except(users: &Vec<User>, self_id: i32) -> (r: Vec<User>)
    ensures
        r@ == others(users@, self_id),
{
    let mut r: Vec<User> = Vec::new();
    let mut i: usize = 0;
    while i < users.len()
        invariant
            i <= users@.len(),
            r@ == others(users@.subrange(0, i as int), self_id),
        decreases users@.len() - i,
    {
        proof {
            assert(users@.subrange(0, i + 1).drop_last() =~= users@.subrange(0, i as int));
            reveal(Seq::filter);
        }
        if users[i].id != self_id {
            r.push(users[i].duplicate());
        }
        i = i + 1;
    }
    assert(users@.subrange(0, i as int) =~= users@);
    r
}

/// Adds `u` to the list that the flags select.
fn place_user(
    friends: &mut Vec<User>,
    incoming: &mut Vec<User>,
    outgoing: &mut Vec<User>,
    u: User,
    mine: bool,
    theirs: bool,
)
    ensures
        (Seq::<User>::empty(), final(friends)@, final(incoming)@, final(outgoing)@) == place(
            (Seq::<User>::empty(), old(friends)@, old(incoming)@, old(outgoing)@),
            u,
            mine,
            theirs,
        ),
{
    if mine {
        if theirs {
            friends.push(u);
        } else {
            outgoing.push(u);
        }
    } else {
        incoming.push(u);
    }
}

/// Classifies the user's relation records against the directory `users`.
/// Each record that involves `current_user_id` moves its counterpart out of
/// the unplaced users into friends (both sides accepted), outgoing requests
/// (only the viewer accepted) or incoming requests (only the counterpart
/// accepted); records are taken in order, the last record of a counterpart
/// decides its list, and a counterpart missing from the directory is left
/// out. The viewer appears in no list. A record involving the
/// viewer with neither side accepted is refused as a broken invariant.
pub fn reconcile_friends(current_user_id: i32, users: &Vec<User>, relations: &Vec<UserToUserFriend>) -> (r:
    Result<FriendViews, RelationError>)
    ensures
        has_broken(relations@, current_user_id) <==> r is Err,
        r is Err ==> r == Err::<FriendViews, RelationError>(RelationError::DataInvariantViolation),
        r matches Ok(v) ==> v.parts() == classify_all(current_user_id, users@, relations@),
{
    let mut k: usize = 0;
    while k < relations.len()
        invariant
            k <= relations@.len(),
            forall|j: int| 0 <= j < k ==> !is_broken(#[trigger] relations@[j], current_user_id),
        decreases relations@.len() - k,
    {
        let rel = relations[k];
        if (rel.user_one_id == current_user_id || rel.user_two_id == current_user_id)
            && !rel.accepted_user_one && !rel.accepted_user_two {
            assert(is_broken(relations@[k as int], current_user_id));
            return Err(RelationError::DataInvariantViolation);
        }
        k = k + 1;
    }
    let mut remaining = users_except(users, current_user_id);
    let mut friends: Vec<User> = Vec::new();
    let mut incoming: Vec<User> = Vec::new();
    let mut outgoing: Vec<User> = Vec::new();
    let mut i: usize = 0;
    while i < relations.len()
        invariant
            i <= relations@.len(),
            (remaining@, friends@, incoming@, outgoing@) == classify_all(
                current_user_id,
                users@,
                relations@.subrange(0, i as int),
            ),
        decreases relations@.len() - i,
    {
        let ghost prev = relations@.subrange(0, i as int);
        let ghost next = relations@.subrange(0, i + 1);
        assert(next.drop_last() =~= prev);
        assert(next.last() == relations@[i as int]);
        let rel = relations[i];
        match resolve_sides(&rel, current_user_id) {
            None => {},
            Some((other, mine, theirs)) => {
                match find_user(&remaining, other) {
                    Some(j) => {
                        let u = remaining.remove(j);
                        place_user(&mut friends, &mut incoming, &mut outgoing, u, mine, theirs);
                    },
                    None => match find_user(&friends, other) {
                        Some(j) => {
                            let u = friends.remove(j);
                            place_user(&mut friends, &mut incoming, &mut outgoing, u, mine, theirs);
                        },
                        None => match find_user(&incoming, other) {
                            Some(j) => {
                                let u = incoming.remove(j);
                                place_user(&mut friends, &mut incoming, &mut outgoing, u, mine, theirs);
                            },
                            None => match find_user(&outgoing, other) {
                                Some(j) => {
                                    let u = outgoing.remove(j);
                                    place_user(&mut friends, &mut incoming, &mut outgoing, u, mine, theirs);
                                },
                                None => {},
                            },
                        },
                    },
                }
            },
        }
        i = i + 1;
    }
    assert(relations@.subrange(0, i as int) =~= relations@);
    Ok(FriendViews { friends, incoming, outgoing, unrelated: remaining })
}

/// In a store whose records each have a side accepted, no record involving
/// the viewer is broken.
pub proof fn lemma_no_broken(s: Seq<UserToUserFriend>, self_id: i32)
    requires
        friends_wf(s),
    ensures
        !has_broken(relations_of(s, self_id), self_id),
{
    let f = relations_of(s, self_id);
    if has_broken(f, self_id) {
        let k = choose|k: int| 0 <= k < f.len() && is_broken(#[trigger] f[k], self_id);
        assert(f.contains(f[k]));
        s.lemma_filter_contains_rev(|r: UserToUserFriend| touches(r, self_id), f[k]);
        let j = choose|j: int| 0 <= j < s.len() && s[j] == f[k];
        assert(s[j].accepted_user_one || s[j].accepted_user_two);
    }
}

/// Whether the record relates `self_id` to `other`.
pub open spec fn relates(rel: UserToUserFriend, self_id: i32, other: i32) -> bool {
    touches(rel, self_id) && spec_counterpart(rel, self_id) == other
}

/// Adding a user to a list keeps the ids it had, and adds the user's.
proof fn lemma_has_id_push(s: Seq<User>, u: User, id: i32)
    ensures
        has_id(s.push(u), id) <==> has_id(s, id) || u.id == id,
{
    if has_id(s, id) {
        let k = choose|k: int| 0 <= k < s.len() && s[k].id == id;
        assert(s.push(u)[k] == s[k]);
    }
    if u.id == id {
        assert(s.push(u)[s.len() as int] == u);
    }
    if has_id(s.push(u), id) {
        let k = choose|k: int| 0 <= k < s.push(u).len() && s.push(u)[k].id == id;
        if k < s.len() {
            assert(s[k] == s.push(u)[k]);
        }
    }
}

/// Removing a user of another id neither adds nor drops the id.
proof fn lemma_has_id_remove(s: Seq<User>, i: int, id: i32)
    requires
        0 <= i < s.len(),
        s[i].id != id,
    ensures
        has_id(s.remove(i), id) <==> has_id(s, id),
{
    if has_id(s, id) {
        let k = choose|k: int| 0 <= k < s.len() && s[k].id == id;
        if k < i {
            assert(s.remove(i)[k] == s[k]);
        } else {
            assert(s.remove(i)[k - 1] == s[k]);
        }
    }
    if has_id(s.remove(i), id) {
        let k = choose|k: int| 0 <= k < s.remove(i).len() && s.remove(i)[k].id == id;
        if k < i {
            assert(s.remove(i)[k] == s[k]);
        } else {
            assert(s.remove(i)[k] == s[k + 1]);
        }
    }
}

/// Placing a user of another id neither adds nor drops the id in any list.
proof fn lemma_place_other(st: Partition, u: User, mine: bool, theirs: bool, id: i32)
    requires
        u.id != id,
    ensures
        has_id(place(st, u, mine, theirs).0, id) <==> has_id(st.0, id),
        has_id(place(st, u, mine, theirs).1, id) <==> has_id(st.1, id),
        has_id(place(st, u, mine, theirs).2, id) <==> has_id(st.2, id),
        has_id(place(st, u, mine, theirs).3, id) <==> has_id(st.3, id),
{
    lemma_has_id_push(st.1, u, id);
    lemma_has_id_push(st.2, u, id);
    lemma_has_id_push(st.3, u, id);
}

/// A record that does not relate the viewer to `other` leaves each list's
/// holding of `other` as it was.
proof fn lemma_step_other(st: Partition, self_id: i32, rel: UserToUserFriend, other: i32)
    requires
        !relates(rel, self_id, other),
    ensures
        has_id(classify_step(st, self_id, rel).0, other) <==> has_id(st.0, other),
        has_id(classify_step(st, self_id, rel).1, other) <==> has_id(st.1, other),
        has_id(classify_step(st, self_id, rel).2, other) <==> has_id(st.2, other),
        has_id(classify_step(st, self_id, rel).3, other) <==> has_id(st.3, other),
{
    let c = spec_counterpart(rel, self_id);
    let mine = spec_my_flag(rel, self_id);
    let theirs = spec_their_flag(rel, self_id);
    if touches(rel, self_id) {
        if has_id(st.0, c) {
            lemma_first_index(st.0, c);
            let i = first_index(st.0, c);
            lemma_has_id_remove(st.0, i, other);
            lemma_place_other((st.0.remove(i), st.1, st.2, st.3), st.0[i], mine, theirs, other);
        } else if has_id(st.1, c) {
            lemma_first_index(st.1, c);
            let i = first_index(st.1, c);
            lemma_has_id_remove(st.1, i, other);
            lemma_place_other((st.0, st.1.remove(i), st.2, st.3), st.1[i], mine, theirs, other);
        } else if has_id(st.2, c) {
            lemma_first_index(st.2, c);
            let i = first_index(st.2, c);
            lemma_has_id_remove(st.2, i, other);
            lemma_place_other((st.0, st.1, st.2.remove(i), st.3), st.2[i], mine, theirs, other);
        } else if has_id(st.3, c) {
            lemma_first_index(st.3, c);
            let i = first_index(st.3, c);
            lemma_has_id_remove(st.3, i, other);
            lemma_place_other((st.0, st.1, st.2, st.3.remove(i)), st.3[i], mine, theirs, other);
        }
    }
}

/// Facts about the first position of an id.
proof fn lemma_first_index(s: Seq<User>, id: i32)
    requires
        has_id(s, id),
    ensures
        0 <= first_index(s, id) < s.len(),
        s[first_index(s, id)].id == id,
    decreases s.len(),
{
    let w = choose|k: int| 0 <= k < s.len() && s[k].id == id;
    assert(exists|i: int| 0 <= i < s.len() && s[i].id == id && forall|j: int| 0 <= j < i
        ==> s[j].id != id) by {
        lemma_least_position(s, id, w);
    }
}

/// Below a position of the id there is a least one.
proof fn lemma_least_position(s: Seq<User>, id: i32, w: int)
    requires
        0 <= w < s.len(),
        s[w].id == id,
    ensures
        exists|i: int| 0 <= i < s.len() && s[i].id == id && forall|j: int| 0 <= j < i ==> s[j].id != id,
    decreases w,
{
    if exists|j: int| 0 <= j < w && s[j].id == id {
        let j = choose|j: int| 0 <= j < w && s[j].id == id;
        lemma_least_position(s, id, j);
    } else {
        assert(forall|j: int| 0 <= j < w ==> s[j].id != id);
    }
}

/// The users other than the viewer keep every other id of the directory.
proof fn lemma_others_has_id(users: Seq<User>, self_id: i32, id: i32)
    requires
        has_id(users, id),
        id != self_id,
    ensures
        has_id(others(users, self_id), id),
{
    let k = choose|k: int| 0 <= k < users.len() && users[k].id == id;
    users.lemma_filter_contains(|u: User| u.id != self_id, k);
    let f = others(users, self_id);
    let j = choose|j: int| 0 <= j < f.len() && f[j] == users[k];
    assert(f[j].id == id);
}

/// Records that do not involve the viewer do not change the classification.
proof fn lemma_classify_relations_of(self_id: i32, users: Seq<User>, rels: Seq<UserToUserFriend>)
    ensures
        classify_all(self_id, users, relations_of(rels, self_id)) == classify_all(self_id, users, rels),
    decreases rels.len(),
{
    reveal(Seq::filter);
    if rels.len() > 0 {
        lemma_classify_relations_of(self_id, users, rels.drop_last());
        let f = relations_of(rels.drop_last(), self_id);
        if touches(rels.last(), self_id) {
            assert(relations_of(rels, self_id) == f.push(rels.last()));
            assert(f.push(rels.last()).drop_last() =~= f);
        } else {
            assert(relations_of(rels, self_id) == f);
        }
    } else {
        assert(relations_of(rels, self_id) =~= rels);
    }
}

/// When no record relates the viewer to `other`, `other` stays unplaced and
/// joins no list.
proof fn lemma_unrelated_stays(self_id: i32, other: i32, users: Seq<User>, rels: Seq<UserToUserFriend>)
    requires
        other != self_id,
        has_id(users, other),
        forall|k: int| 0 <= k < rels.len() ==> !relates(#[trigger] rels[k], self_id, other),
    ensures
        has_id(classify_all(self_id, users, rels).0, other),
        !has_id(classify_all(self_id, users, rels).1, other),
        !has_id(classify_all(self_id, users, rels).2, other),
        !has_id(classify_all(self_id, users, rels).3, other),
    decreases rels.len(),
{
    if rels.len() == 0 {
        lemma_others_has_id(users, self_id, other);
    } else {
        let prev = rels.drop_last();
        assert forall|k: int| 0 <= k < prev.len() implies !relates(#[trigger] prev[k], self_id, other) by {
            assert(prev[k] == rels[k]);
        }
        lemma_unrelated_stays(self_id, other, users, prev);
        assert(!relates(rels[rels.len() - 1], self_id, other));
        lemma_step_other(classify_all(self_id, users, prev), self_id, rels.last(), other);
    }
}

/// When exactly one record relates the viewer to `other`, `other` ends in the
/// list that this record's flags select, and in no other list.
proof fn lemma_single_relation(
    self_id: i32,
    other: i32,
    users: Seq<User>,
    rels: Seq<UserToUserFriend>,
    j: int,
)
    requires
        other != self_id,
        has_id(users, other),
        0 <= j < rels.len(),
        relates(rels[j], self_id, other),
        forall|k: int| 0 <= k < rels.len() && k != j ==> !relates(#[trigger] rels[k], self_id, other),
    ensures
        ({
            let st = classify_all(self_id, users, rels);
            let mine = spec_my_flag(rels[j], self_id);
            let theirs = spec_their_flag(rels[j], self_id);
            &&& has_id(st.1, other) <==> mine && theirs
            &&& has_id(st.3, other) <==> mine && !theirs
            &&& has_id(st.2, other) <==> !mine
        }),
    decreases rels.len(),
{
    let prev = rels.drop_last();
    let rel = rels.last();
    if j == rels.len() - 1 {
        assert forall|k: int| 0 <= k < prev.len() implies !relates(#[trigger] prev[k], self_id, other) by {
            assert(prev[k] == rels[k]);
        }
        lemma_unrelated_stays(self_id, other, users, prev);
        let st = classify_all(self_id, users, prev);
        lemma_first_index(st.0, other);
        let i = first_index(st.0, other);
        let u = st.0[i];
        lemma_has_id_push(st.1, u, other);
        lemma_has_id_push(st.2, u, other);
        lemma_has_id_push(st.3, u, other);
    } else {
        assert forall|k: int| 0 <= k < prev.len()
            && k != j implies !relates(#[trigger] prev[k], self_id, other) by {
            assert(prev[k] == rels[k]);
        }
        assert(prev[j] == rels[j]);
        lemma_single_relation(self_id, other, users, prev, j);
        assert(!relates(rels[rels.len() - 1], self_id, other));
        lemma_step_other(classify_all(self_id, users, prev), self_id, rel, other);
    }
}

/// In a store without duplicate pairs, only the record of the canonical pair
/// relates two users.
proof fn lemma_only_pair_relates(s: Seq<UserToUserFriend>, a: i32, b: i32, k: int)
    requires
        friends_wf(s),
        a != b,
        0 <= k < s.len(),
        relates(s[k], a, b),
    ensures
        s[k].user_one_id == spec_canonical_pair(a, b).0,
        s[k].user_two_id == spec_canonical_pair(a, b).1,
{
    assert(s[k].user_one_id < s[k].user_two_id);
}

/// After `a` asks `b` for friendship and `b` accepts, each of the two
/// classifies the other as a friend, and neither lists the other as an
/// incoming or outgoing request; the directory must list both.
pub proof fn request_then_accept_makes_friends(
    before: Seq<UserToUserFriend>,
    after_request: Seq<UserToUserFriend>,
    after_accept: Seq<UserToUserFriend>,
    users: Seq<User>,
    a: i32,
    b: i32,
)
    requires
        friends_wf(before),
        a != b,
        has_id(users, a),
        has_id(users, b),
        !has_pair(before, spec_canonical_pair(a, b).0, spec_canonical_pair(a, b).1),
        after_request == before.push(spec_request_record(a, b)),
        exists|i: int|
            0 <= i < after_request.len() && after_request[i].user_one_id == spec_canonical_pair(a, b).0
                && after_request[i].user_two_id == spec_canonical_pair(a, b).1 && after_accept
                == after_request.update(
                i,
                UserToUserFriend {
                    user_one_id: spec_canonical_pair(a, b).0,
                    user_two_id: spec_canonical_pair(a, b).1,
                    accepted_user_one: true,
                    accepted_user_two: true,
                },
            ),
    ensures
        has_id(classify_all(a, users, relations_of(after_accept, a)).1, b),
        !has_id(classify_all(a, users, relations_of(after_accept, a)).2, b),
        !has_id(classify_all(a, users, relations_of(after_accept, a)).3, b),
        has_id(classify_all(b, users, relations_of(after_accept, b)).1, a),
        !has_id(classify_all(b, users, relations_of(after_accept, b)).2, a),
        !has_id(classify_all(b, users, relations_of(after_accept, b)).3, a),
{
    let (lo, hi) = spec_canonical_pair(a, b);
    let i = choose|i: int|
        0 <= i < after_request.len() && after_request[i].user_one_id == lo && after_request[i].user_two_id
            == hi && after_accept == after_request.update(
            i,
            UserToUserFriend { user_one_id: lo, user_two_id: hi, accepted_user_one: true, accepted_user_two: true },
        );
    let n = before.len() as int;
    // The request is the only record of the pair.
    assert(i == n) by {
        if i < n {
            assert(before[i] == after_request[i]);
        }
    }
    assert forall|k: int| 0 <= k < after_accept.len() && k != i implies !relates(
        #[trigger] after_accept[k],
        a,
        b,
    ) && !relates(after_accept[k], b, a) by {
        assert(after_accept[k] == before[k]);
        if relates(before[k], a, b) {
            lemma_only_pair_relates(before, a, b, k);
        }
        if relates(before[k], b, a) {
            lemma_only_pair_relates(before, b, a, k);
        }
    }
    assert(relates(after_accept[i], a, b));
    assert(relates(after_accept[i], b, a));
    lemma_single_relation(a, b, users, after_accept, i);
    lemma_single_relation(b, a, users, after_accept, i);
    lemma_classify_relations_of(a, users, after_accept);
    lemma_classify_relations_of(b, users, after_accept);
}

/// After the record of two users is deleted (a friend removed, a request
/// declined or retracted), each of them is unrelated to the other on the
/// next classification, provided the directory lists both.
pub proof fn removal_makes_unrelated(
    before: Seq<UserToUserFriend>,
    after: Seq<UserToUserFriend>,
    users: Seq<User>,
    a: i32,
    b: i32,
)
    requires
        friends_wf(before),
        a != b,
        has_id(users, a),
        has_id(users, b),
        exists|i: int|
            0 <= i < before.len() && before[i].user_one_id == spec_canonical_pair(a, b).0
                && before[i].user_two_id == spec_canonical_pair(a, b).1 && after == before.remove(i),
    ensures
        has_id(classify_all(a, users, relations_of(after, a)).0, b),
        !has_id(classify_all(a, users, relations_of(after, a)).1, b),
        !has_id(classify_all(a, users, relations_of(after, a)).2, b),
        !has_id(classify_all(a, users, relations_of(after, a)).3, b),
        has_id(classify_all(b, users, relations_of(after, b)).0, a),
        !has_id(classify_all(b, users, relations_of(after, b)).1, a),
        !has_id(classify_all(b, users, relations_of(after, b)).2, a),
        !has_id(classify_all(b, users, relations_of(after, b)).3, a),
{
    let (lo, hi) = spec_canonical_pair(a, b);
    let i = choose|i: int|
        0 <= i < before.len() && before[i].user_one_id == lo && before[i].user_two_id == hi && after
            == before.remove(i);
    assert forall|k: int| 0 <= k < after.len() implies !relates(#[trigger] after[k], a, b) && !relates(
        after[k],
        b,
        a,
    ) by {
        let m = if k < i {
            k
        } else {
            k + 1
        };
        assert(after[k] == before[m]);
        assert(m != i);
        if relates(before[m], a, b) {
            lemma_only_pair_relates(before, a, b, m);
            assert(!(before[i].user_one_id == before[m].user_one_id && before[i].user_two_id
                == before[m].user_two_id));
        }
        if relates(before[m], b, a) {
            lemma_only_pair_relates(before, b, a, m);
            assert(!(before[i].user_one_id == before[m].user_one_id && before[i].user_two_id
                == before[m].user_two_id));
        }
    }
    lemma_unrelated_stays(a, b, users, after);
    lemma_unrelated_stays(b, a, users, after);
    lemma_classify_relations_of(a, users, after);
    lemma_classify_relations_of(b, users, after);
}

/// All users held by the four lists of a partition, counted with repetition.
pub open spec fn held(st: Partition) -> Multiset<User> {
    st.0.to_multiset().add(st.1.to_multiset()).add(st.2.to_multiset()).add(st.3.to_multiset())
}

/// Placing a user adds exactly that user to what the lists hold.
proof fn lemma_place_held(st: Partition, u: User, mine: bool, theirs: bool)
    ensures
        held(place(st, u, mine, theirs)) =~= held(st).insert(u),
{
    broadcast use vstd::seq_lib::group_to_multiset_ensures;
    broadcast use vstd::multiset::group_multiset_axioms;

}

/// Taking the user at `i` out of a list leaves the others' holdings, less that
/// user.
proof fn lemma_remove_held(s: Seq<User>, i: int)
    requires
        0 <= i < s.len(),
    ensures
        s.remove(i).to_multiset().insert(s[i]) =~= s.to_multiset(),
{
    broadcast use vstd::seq_lib::group_to_multiset_ensures;
    broadcast use vstd::multiset::group_multiset_axioms;

    assert(s.contains(s[i]));
}

/// One classification step moves users between the lists but never adds or
/// drops one.
proof fn lemma_step_held(st: Partition, self_id: i32, rel: UserToUserFriend)
    ensures
        held(classify_step(st, self_id, rel)) =~= held(st),
{
    broadcast use vstd::multiset::group_multiset_axioms;

    let c = spec_counterpart(rel, self_id);
    let mine = spec_my_flag(rel, self_id);
    let theirs = spec_their_flag(rel, self_id);
    if touches(rel, self_id) {
        if has_id(st.0, c) {
            lemma_first_index(st.0, c);
            let i = first_index(st.0, c);
            lemma_remove_held(st.0, i);
            lemma_place_held((st.0.remove(i), st.1, st.2, st.3), st.0[i], mine, theirs);
        } else if has_id(st.1, c) {
            lemma_first_index(st.1, c);
            let i = first_index(st.1, c);
            lemma_remove_held(st.1, i);
            lemma_place_held((st.0, st.1.remove(i), st.2, st.3), st.1[i], mine, theirs);
        } else if has_id(st.2, c) {
            lemma_first_index(st.2, c);
            let i = first_index(st.2, c);
            lemma_remove_held(st.2, i);
            lemma_place_held((st.0, st.1, st.2.remove(i), st.3), st.2[i], mine, theirs);
        } else if has_id(st.3, c) {
            lemma_first_index(st.3, c);
            let i = first_index(st.3, c);
            lemma_remove_held(st.3, i);
            lemma_place_held((st.0, st.1, st.2, st.3.remove(i)), st.3[i], mine, theirs);
        }
    }
}

/// The four lists of a refresh partition the directory without the viewer:
/// together they hold every other user exactly as often as the directory
/// lists it, and nobody else. With a directory of distinct users the lists
/// are therefore disjoint, free of duplicates, and never hold the viewer.
pub proof fn classification_partitions_users(self_id: i32, users: Seq<User>, rels: Seq<UserToUserFriend>)
    ensures
        held(classify_all(self_id, users, rels)) =~= others(users, self_id).to_multiset(),
    decreases rels.len(),
{
    broadcast use vstd::seq_lib::group_to_multiset_ensures;
    broadcast use vstd::multiset::group_multiset_axioms;

    if rels.len() > 0 {
        classification_partitions_users(self_id, users, rels.drop_last());
        lemma_step_held(classify_all(self_id, users, rels.drop_last()), self_id, rels.last());
    } else {
        assert(Seq::<User>::empty().to_multiset() =~= Multiset::<User>::empty());
    }
}

/// In a store whose records are canonical and unique, each counterpart of
/// the viewer that the directory lists is placed by the flags of its own
/// record: among the friends when both sides accepted, among the outgoing
/// requests when only the viewer did, among the incoming requests when only
/// the counterpart did, and in no other of these lists.
pub proof fn counterpart_placed_by_its_record(
    s: Seq<UserToUserFriend>,
    users: Seq<User>,
    self_id: i32,
    k: int,
)
    requires
        friends_wf(s),
        0 <= k < s.len(),
        touches(s[k], self_id),
        has_id(users, spec_counterpart(s[k], self_id)),
    ensures
        ({
            let o = spec_counterpart(s[k], self_id);
            let st = classify_all(self_id, users, relations_of(s, self_id));
            let mine = spec_my_flag(s[k], self_id);
            let theirs = spec_their_flag(s[k], self_id);
            &&& has_id(st.1, o) <==> mine && theirs
            &&& has_id(st.3, o) <==> mine && !theirs
            &&& has_id(st.2, o) <==> !mine
        }),
{
    let o = spec_counterpart(s[k], self_id);
    assert(s[k].user_one_id < s[k].user_two_id);
    assert forall|j: int| 0 <= j < s.len() && j != k implies !relates(#[trigger] s[j], self_id, o) by {
        if relates(s[j], self_id, o) {
            lemma_only_pair_relates(s, self_id, o, j);
            lemma_only_pair_relates(s, self_id, o, k);
        }
    }
    lemma_single_relation(self_id, o, users, s, k);
    lemma_classify_relations_of(self_id, users, s);
}

} // verus!
