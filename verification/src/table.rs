//! Semantics of the `users` table: rows keyed by a system-assigned
//! identifier that is unique and never reused.

use vstd::prelude::*;

use crate::user::{is_created_from, same_user, CreateUser, User};

verus! {

/// The first row found with the given identifier, scanning from the
/// front. With unique identifiers, the row with that identifier.
pub open spec fn row_with_id(rows: Seq<User>, id: i32) -> Option<User>
    decreases rows.len(),
{
    if rows.len() == 0 {
        None
    } else if rows[0].id == id {
        Some(rows[0])
    } else {
        row_with_id(rows.drop_first(), id)
    }
}

/// The `users` table: its rows and the identifier the next insert
/// will assign.
pub struct Table {
    pub next_id: i32,
    pub rows: Vec<User>,
}

impl Table {
    /// Identifiers start at 1, stay below the next unassigned one, and
    /// no two rows share one.
    pub open spec fn wf(self) -> bool {
        &&& 1 <= self.next_id
        &&& forall|i: int|
            0 <= i < self.rows@.len() ==> 1 <= (#[trigger] self.rows@[i]).id < self.next_id
        &&& forall|i: int, j: int|
            0 <= i < j < self.rows@.len() ==> self.rows@[i].id != self.rows@[j].id
    }

    /// An empty table, about to assign identifier 1.
    pub fn new() -> (t: Table)
        ensures
            t.wf(),
            t.rows@.len() == 0,
            t.next_id == 1,
    {
        Table { next_id: 1, rows: Vec::new() }
    }

    /// Insert one row built from the create input, assigning the next
    /// identifier and stamping both timestamps with the creation
    /// instant. Returns the full created row in the same step: no
    /// separate read-back. The assigned identifier is distinct from
    /// every identifier ever assigned before.
    pub fn insert(&mut self, c: &CreateUser, now: i64) -> (u: User)
        requires
            old(self).wf(),
            old(self).next_id < i32::MAX,
        ensures
            final(self).wf(),
            final(self).next_id == old(self).next_id + 1,
            final(self).rows@.len() == old(self).rows@.len() + 1,
            forall|i: int|
                0 <= i < old(self).rows@.len() ==> final(self).rows@[i] == old(self).rows@[i],
            is_created_from(final(self).rows@.last(), *c, old(self).next_id, now),
            is_created_from(u, *c, old(self).next_id, now),
            same_user(u, final(self).rows@.last()),
            forall|i: int|
                0 <= i < old(self).rows@.len() ==> (#[trigger] old(self).rows@[i]).id != u.id,
            row_with_id(final(self).rows@, u.id) == Some(final(self).rows@.last()),
    {
        let id: i32 = self.next_id;
        let stored = User {
            id,
            name: self.clone_string(&c.name),
            email: self.clone_string(&c.email),
            age: c.age,
            created_at: now,
            updated_at: now,
        };
        let returned = User {
            id,
            name: self.clone_string(&c.name),
            email: self.clone_string(&c.email),
            age: c.age,
            created_at: now,
            updated_at: now,
        };
        self.rows.push(stored);
        self.next_id = self.next_id + 1;
        proof {
            lemma_lookup_after_push(old(self).rows@, self.rows@.last(), id);
        }
        returned
    }

    /// Point lookup by identifier. Returns the row as stored,
    /// unmodified, or `None` when no row carries the identifier.
    pub fn lookup(&self, id: i32) -> (r: Option<User>)
        ensures
            match row_with_id(self.rows@, id) {
                Some(w) => r matches Some(u) && same_user(u, w),
                None => r is None,
            },
    {
        let n: usize = self.rows.len();
        let mut i: usize = 0;
        proof {
            assert(self.rows@.skip(0) =~= self.rows@);
        }
        while i < n
            invariant
                n == self.rows@.len(),
                0 <= i <= n,
                row_with_id(self.rows@, id) == row_with_id(self.rows@.skip(i as int), id),
            decreases n - i,
        {
            proof {
                assert(self.rows@.skip(i as int).len() > 0);
                assert(self.rows@.skip(i as int)[0] == self.rows@[i as int]);
                assert(self.rows@.skip(i as int).drop_first() =~= self.rows@.skip(i as int + 1));
            }
            if self.rows[i].id == id {
                let w = &self.rows[i];
                return Some(
                    User {
                        id: w.id,
                        name: self.clone_string(&w.name),
                        email: self.clone_string(&w.email),
                        age: w.age,
                        created_at: w.created_at,
                        updated_at: w.updated_at,
                    },
                );
            }
            i = i + 1;
        }
        proof {
            assert(self.rows@.skip(n as int) =~= Seq::<User>::empty());
        }
        None
    }

    fn clone_string(&self, s: &String) -> (r: String)
        ensures
            r@ == s@,
    {
        s.clone()
    }
}

/// A row whose identifier appears nowhere is found by its identifier
/// once appended — the read-back after a create.
pub proof fn lemma_lookup_after_push(rows: Seq<User>, u: User, id: i32)
    requires
        u.id == id,
        forall|i: int| 0 <= i < rows.len() ==> (#[trigger] rows[i]).id != id,
    ensures
        row_with_id(rows.push(u), id) == Some(u),
    decreases rows.len(),
{
    if rows.len() == 0 {
        assert(rows.push(u)[0] == u);
    } else {
        assert(rows.push(u).drop_first() =~= rows.drop_first().push(u));
        assert(forall|i: int|
            0 <= i < rows.drop_first().len() ==> (#[trigger] rows.drop_first()[i]).id != id);
        lemma_lookup_after_push(rows.drop_first(), u, id);
    }
}

/// An identifier that was never assigned is found nowhere: the lookup
/// outcome on it is deterministic (no row).
pub proof fn lemma_lookup_missing(rows: Seq<User>, id: i32)
    requires
        forall|i: int| 0 <= i < rows.len() ==> (#[trigger] rows[i]).id != id,
    ensures
        row_with_id(rows, id) is None,
    decreases rows.len(),
{
    if rows.len() > 0 {
        assert(forall|i: int|
            0 <= i < rows.drop_first().len() ==> (#[trigger] rows.drop_first()[i]).id != id);
        lemma_lookup_missing(rows.drop_first(), id);
    }
}

} // verus!
