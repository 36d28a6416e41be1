//! The user table behind the in-memory repository: a hash map from the bits
//! of each user id to the user holding that id.

use std::collections::HashMap;

use vstd::prelude::*;

use crate::user::{Email, User, UserId};

verus! {

broadcast use vstd::std_specs::hash::group_hash_axioms;

/// No two users of `users` share an id.
pub open spec fn distinct_ids(users: Seq<User>) -> bool {
    forall|i: int, j: int|
        0 <= i < users.len() && 0 <= j < users.len() && i != j ==> users[i].id != users[j].id
}

/// The table that `users` describes: the bits of each id held by one of
/// them, mapped to the user holding it.
pub open spec fn table(users: Seq<User>) -> Map<u128, User> {
    Map::new(
        |k: u128| exists|i: int| 0 <= i < users.len() && users[i].id.0 == k,
        |k: u128| users[choose|i: int| 0 <= i < users.len() && users[i].id.0 == k],
    )
}

/// The record kept under `id`, if any.
pub open spec fn lookup(m: Map<u128, User>, id: UserId) -> Option<User> {
    if m.contains_key(id.0) {
        Some(m[id.0])
    } else {
        None
    }
}

/// Some record of `m` has the address `email`.
pub open spec fn has_email(m: Map<u128, User>, email: Seq<char>) -> bool {
    exists|k: u128| m.contains_key(k) && #[trigger] m[k].email@ == email
}

/// The user at position `i` is the one the table keeps under its id.
proof fn lemma_table_at(users: Seq<User>, i: int)
    requires
        distinct_ids(users),
        0 <= i < users.len(),
    ensures
        table(users).contains_key(users[i].id.0),
        table(users)[users[i].id.0] == users[i],
{
    let k = users[i].id.0;
    assert(table(users).dom().contains(k));
    let c = choose|c: int| 0 <= c < users.len() && users[c].id.0 == k;
    assert(users[c].id.0 == k);
}

/// Every key of the table is the id of some position.
proof fn lemma_table_key(users: Seq<User>, k: u128) -> (i: int)
    requires
        distinct_ids(users),
        table(users).contains_key(k),
    ensures
        0 <= i < users.len(),
        users[i].id.0 == k,
        table(users)[k] == users[i],
{
    assert(table(users).dom().contains(k));
    let i = choose|i: int| 0 <= i < users.len() && users[i].id.0 == k;
    lemma_table_at(users, i);
    i
}

/// The ids of `users`, as bits.
spec fn id_bits(users: Seq<User>) -> Seq<u128> {
    users.map_values(|u: User| u.id.0)
}

/// The keys of a table are the ids of the users it was made from.
proof fn lemma_table_dom(users: Seq<User>)
    ensures
        id_bits(users).to_set() == table(users).dom(),
{
    let ids = id_bits(users);
    assert(ids.to_set() =~= table(users).dom()) by {
        assert forall|k: u128| ids.to_set().contains(k) implies table(users).dom().contains(k) by {
            let i = choose|i: int| 0 <= i < ids.len() && ids[i] == k;
            assert(users[i].id.0 == k);
        }
        assert forall|k: u128| table(users).dom().contains(k) implies ids.to_set().contains(k) by {
            let i = choose|i: int| 0 <= i < users.len() && users[i].id.0 == k;
            assert(ids[i] == k);
        }
    }
}

/// A table of pairwise distinct ids has one record per position.
proof fn lemma_table_len(users: Seq<User>)
    requires
        distinct_ids(users),
    ensures
        table(users).dom().finite(),
        table(users).len() == users.len(),
{
    let ids = id_bits(users);
    assert(ids.no_duplicates()) by {
        assert forall|i: int, j: int| 0 <= i < ids.len() && 0 <= j < ids.len() && i != j
            implies ids[i] != ids[j] by {
            assert(users[i].id != users[j].id);
        }
    }
    ids.unique_seq_to_set();
    lemma_table_dom(users);
    vstd::seq_lib::seq_to_set_is_finite(ids);
}

/// Appending a user whose id is new adds one record to the table.
proof fn lemma_table_push(users: Seq<User>, u: User)
    requires
        distinct_ids(users),
        forall|i: int| 0 <= i < users.len() ==> users[i].id != u.id,
    ensures
        distinct_ids(users.push(u)),
        table(users.push(u)) == table(users).insert(u.id.0, u),
{
    let after = users.push(u);
    assert(table(after) =~= table(users).insert(u.id.0, u)) by {
        assert forall|k: u128| #[trigger] table(after).contains_key(k)
            implies table(users).insert(u.id.0, u).contains_key(k)
            && table(after)[k] == table(users).insert(u.id.0, u)[k] by {
            let j = lemma_table_key(after, k);
            if j < users.len() {
                lemma_table_at(users, j);
            }
        }
        assert forall|k: u128| #[trigger] table(users).insert(u.id.0, u).contains_key(k)
            implies table(after).contains_key(k) by {
            if k != u.id.0 {
                let j = lemma_table_key(users, k);
                lemma_table_at(after, j);
            } else {
                lemma_table_at(after, users.len() as int);
            }
        }
    }
}

/// The table after saving each of `users` in turn, starting from `start`.
pub open spec fn after_saves(start: Map<u128, User>, users: Seq<User>) -> Map<u128, User>
    decreases users.len(),
{
    if users.len() == 0 {
        start
    } else {
        after_saves(start, users.drop_last()).insert(users.last().id.0, users.last())
    }
}

/// Saving a user and then looking up its id gives back that same user.
pub proof fn save_then_find_round_trip(before: Map<u128, User>, user: User)
    ensures
        lookup(before.insert(user.id.0, user), user.id) == Some(user),
{
}

/// Deleting an id twice leaves the table as deleting it once does, and the id
/// is absent after either deletion.
pub proof fn delete_is_idempotent(before: Map<u128, User>, id: UserId)
    ensures
        before.remove(id.0).remove(id.0) == before.remove(id.0),
        lookup(before.remove(id.0), id) is None,
        lookup(before.remove(id.0).remove(id.0), id) is None,
{
    assert(before.remove(id.0).remove(id.0) =~= before.remove(id.0));
}

/// Saving users with pairwise distinct ids into an empty table, one after
/// another in whatever order they are admitted, keeps every one of them:
/// the table then holds exactly as many records as there were saves, and
/// each id maps to the user saved under it.
pub proof fn distinct_saves_all_kept(users: Seq<User>)
    requires
        distinct_ids(users),
    ensures
        after_saves(Map::empty(), users).len() == users.len(),
        forall|i: int| 0 <= i < users.len()
            ==> lookup(after_saves(Map::empty(), users), #[trigger] users[i].id) == Some(users[i]),
{
    lemma_after_saves_is_table(users);
    lemma_table_len(users);
    assert forall|i: int| 0 <= i < users.len()
        implies lookup(after_saves(Map::empty(), users), #[trigger] users[i].id) == Some(users[i]) by {
        lemma_table_at(users, i);
    }
}

proof fn lemma_after_saves_is_table(users: Seq<User>)
    requires
        distinct_ids(users),
    ensures
        after_saves(Map::empty(), users) == table(users),
    decreases users.len(),
{
    if users.len() == 0 {
        assert(table(users) =~= Map::<u128, User>::empty());
    } else {
        let rest = users.drop_last();
        assert(distinct_ids(rest));
        lemma_after_saves_is_table(rest);
        assert forall|i: int| 0 <= i < rest.len() implies rest[i].id != users.last().id by {
            assert(users[i].id != users[users.len() - 1].id);
        }
        lemma_table_push(rest, users.last());
        assert(rest.push(users.last()) =~= users);
    }
}

/// The id bits of the records of `m` with the address `email`.
pub open spec fn records_with_email(m: Map<u128, User>, email: Seq<char>) -> Set<u128> {
    m.dom().filter(|k: u128| m[k].email@ == email)
}

/// Once a user is saved under an address that no record had, a lookup by
/// that address finds a record, so a second registration with it is refused,
/// and the table holds exactly one record with that address.
pub proof fn registered_email_is_unique(before: Map<u128, User>, user: User)
    requires
        !has_email(before, user.email@),
    ensures
        has_email(before.insert(user.id.0, user), user.email@),
        records_with_email(before.insert(user.id.0, user), user.email@) == set![user.id.0],
        records_with_email(before.insert(user.id.0, user), user.email@).len() == 1,
{
    let after = before.insert(user.id.0, user);
    assert(after.contains_key(user.id.0) && after[user.id.0].email@ == user.email@);
    assert(records_with_email(after, user.email@) =~= set![user.id.0]) by {
        assert forall|k: u128| #[trigger] records_with_email(after, user.email@).contains(k)
            implies k == user.id.0 by {
            if k != user.id.0 {
                assert(before.contains_key(k) && before[k].email@ == user.email@);
            }
        }
    }
}

/// A map from the bits of each user id to the user holding that id.
pub struct UserStore {
    users: HashMap<u128, User>,
}

impl View for UserStore {
    type V = Map<u128, User>;

    closed spec fn view(&self) -> Map<u128, User> {
        self.users@
    }
}

impl UserStore {
    /// Well-formedness: each record is kept under the bits of its own id.
    pub closed spec fn wf(&self) -> bool {
        forall|k: u128| #[trigger] self.users@.contains_key(k) ==> self.users@[k].id.0 == k
    }

    /// A well-formed table is finite and keeps each record under its id.
    pub proof fn lemma_wf(&self)
        requires
            self.wf(),
        ensures
            self@.dom().finite(),
            forall|k: u128| #[trigger] self@.contains_key(k) ==> self@[k].id.0 == k,
    {
    }

    /// An empty table.
    pub fn new() -> (r: UserStore)
        ensures
            r.wf(),
            r@ == Map::<u128, User>::empty(),
    {
        UserStore { users: HashMap::new() }
    }

    /// The number of records.
    pub fn len(&self) -> (r: usize)
        requires
            self.wf(),
        ensures
            r == self@.len(),
    {
        self.users.len()
    }

    /// A copy of the record kept under `id`, if any.
    pub fn find_by_id(&self, id: &UserId) -> (r: Option<User>)
        requires
            self.wf(),
        ensures
            r == lookup(self@, *id),
            r matches Some(u) ==> u.id == *id,
    {
        match self.users.get(&id.0) {
            Some(u) => Some(u.clone()),
            None => None,
        }
    }

    /// A copy of a record with the address `email`, if one exists.
    pub fn find_by_email(&self, email: &Email) -> (r: Option<User>)
        requires
            self.wf(),
        ensures
            r matches Some(u) ==> lookup(self@, u.id) == Some(u) && u.email@ == email@,
            r is None <==> !has_email(self@, email@),
    {
        let ghost mut visited: Seq<User> = Seq::empty();
        for u in it: self.users.values()
            invariant
                self.wf(),
                it.seq().unref().to_set() == self.users@.values(),
                visited == it.seq().unref().take(it.index()),
                it.index() == it.seq().len() ==> visited.to_set() == self.users@.values(),
                forall|j: int| 0 <= j < visited.len() ==> visited[j].email@ != email@,
        {
            if u.email == *email {
                assert(it.seq().unref().to_set().contains(*u)) by {
                    assert(it.seq().unref()[it.index()] == *u);
                }
                proof {
                    let k = choose|k: u128| self.users@.contains_key(k) && self.users@[k] == *u;
                    assert(self.users@[k].id.0 == k);
                }
                return Some(u.clone());
            }
            proof {
                visited = visited.push(*u);
            }
            proof {
                assert(visited =~= it.seq().unref().take(it.index() + 1));
                assert(it.seq().unref().take(it.seq().len() as int) =~= it.seq().unref());
            }
        }
        proof {
            assert forall|k: u128| self@.contains_key(k) implies #[trigger] self@[k].email@ != email@ by {
                assert(self.users@.values().contains(self.users@[k]));
                assert(visited.to_set().contains(self.users@[k]));
            }
        }
        None
    }

    /// Inserts `user`, replacing any record with the same id.
    pub fn save(&mut self, user: &User)
        requires
            old(self).wf(),
        ensures
            final(self).wf(),
            final(self)@ == old(self)@.insert(user.id.0, *user),
    {
        self.users.insert(user.id.0, user.clone());
    }

    /// Removes the record kept under `id`; nothing happens when there is none.
    pub fn delete(&mut self, id: &UserId)
        requires
            old(self).wf(),
        ensures
            final(self).wf(),
            final(self)@ == old(self)@.remove(id.0),
    {
        self.users.remove(&id.0);
    }

    /// A copy of every record, each once, in no promised order.
    pub fn list(&self) -> (r: Vec<User>)
        requires
            self.wf(),
        ensures
            distinct_ids(r@),
            table(r@) == self@,
            r@.len() == self@.len(),
    {
        let mut r: Vec<User> = Vec::new();
        for u in it: self.users.values()
            invariant
                self.wf(),
                it.seq().unref().to_set() == self.users@.values(),
                it.seq().len() == self.users@.dom().len(),
                r@ == it.seq().unref().take(it.index()),
                it.index() == it.seq().len() ==> r@.to_set() == self.users@.values(),
                it.index() == it.seq().len() ==> r@.len() == self.users@.dom().len(),
        {
            r.push(u.clone());
            proof {
                assert(r@ =~= it.seq().unref().take(it.index() + 1));
                assert(it.seq().unref().take(it.seq().len() as int) =~= it.seq().unref());
            }
        }
        proof {
            let m = self.users@;
            let s = r@;
            assert(table(s) =~= m) by {
                assert forall|k: u128| #[trigger] table(s).contains_key(k) implies m.contains_key(k)
                    && table(s)[k] == m[k] by {
                    let c = choose|c: int| 0 <= c < s.len() && s[c].id.0 == k;
                    assert(s.to_set().contains(s[c]));
                    let k2 = choose|k2: u128| m.contains_key(k2) && m[k2] == s[c];
                    assert(m[k2].id.0 == k2);
                }
                assert forall|k: u128| m.contains_key(k) implies #[trigger] table(s).contains_key(k) by {
                    assert(m.values().contains(m[k]));
                    assert(s.to_set().contains(m[k]));
                    let i = choose|i: int| 0 <= i < s.len() && s[i] == m[k];
                    assert(s[i].id.0 == k);
                }
            }
            let ids = id_bits(s);
            lemma_table_dom(s);
            assert(ids.to_set().len() == ids.len());
            ids.lemma_no_dup_set_cardinality();
            assert forall|i: int, j: int| 0 <= i < s.len() && 0 <= j < s.len() && i != j
                implies s[i].id != s[j].id by {
                assert(ids[i] != ids[j]);
            }
        }
        r
    }
}

} // verus!
