//! The table of links between chat users and accounts of the ranking service.

use crate::seqs::{lemma_filter_drops_one, lemma_filter_keeps_all};
use crate::text::str_equal;
use vstd::prelude::*;

verus! {

/// One link: the account `faceit_id` of the ranking service belongs to the
/// chat user `discord_id`.
pub struct LinkedUser {
    pub faceit_id: String,
    pub discord_id: String,
}

/// What a [`LinkedUser`] holds.
pub struct LinkRow {
    pub faceit_id: Seq<char>,
    pub discord_id: Seq<char>,
}

impl View for LinkedUser {
    type V = LinkRow;

    open spec fn view(&self) -> LinkRow {
        LinkRow { faceit_id: self.faceit_id@, discord_id: self.discord_id@ }
    }
}

impl LinkedUser {
    /// A link from the two text columns of a stored row; `None` where either
    /// column could not be read as text.
    pub fn from_row(faceit_id: Option<String>, discord_id: Option<String>) -> (user: Option<
        LinkedUser,
    >)
        ensures
            user is Some <==> faceit_id is Some && discord_id is Some,
            user matches Some(u) ==> u.faceit_id == faceit_id->0 && u.discord_id == discord_id->0,
    {
        match faceit_id {
            Some(faceit_id) => match discord_id {
                Some(discord_id) => Some(LinkedUser { faceit_id, discord_id }),
                None => None,
            },
            None => None,
        }
    }

    /// A copy of the link.
    pub fn duplicate(&self) -> (copy: LinkedUser)
        ensures
            copy@ == self@,
    {
        LinkedUser { faceit_id: self.faceit_id.clone(), discord_id: self.discord_id.clone() }
    }
}

/// Some row of `rows` belongs to the chat user `discord_id`.
pub open spec fn has_user(rows: Seq<LinkRow>, discord_id: Seq<char>) -> bool {
    exists|i: int| 0 <= i < rows.len() && (#[trigger] rows[i]).discord_id == discord_id
}

/// No chat user has two rows.
pub open spec fn unique_users(rows: Seq<LinkRow>) -> bool {
    forall|i: int, j: int|
        0 <= i < j < rows.len() ==> (#[trigger] rows[i]).discord_id != (
        #[trigger] rows[j]).discord_id
}

/// `rows` without the rows of the chat user `discord_id`, the others in
/// their order.
pub open spec fn without_user(rows: Seq<LinkRow>, discord_id: Seq<char>) -> Seq<LinkRow> {
    rows.filter(|row: LinkRow| row.discord_id != discord_id)
}

/// Filtering out a user that has no row changes nothing.
pub proof fn lemma_without_absent_user(rows: Seq<LinkRow>, discord_id: Seq<char>)
    requires
        !has_user(rows, discord_id),
    ensures
        without_user(rows, discord_id) == rows,
{
    lemma_filter_keeps_all(rows, |row: LinkRow| row.discord_id != discord_id);
}

/// Where users are unique, filtering out the user of row `at` removes that
/// row and no other.
pub proof fn lemma_without_present_user(rows: Seq<LinkRow>, at: int)
    requires
        unique_users(rows),
        0 <= at < rows.len(),
    ensures
        without_user(rows, rows[at].discord_id) == rows.remove(at),
{
    let discord_id = rows[at].discord_id;
    assert forall|i: int| 0 <= i < rows.len() && i != at implies (#[trigger] rows[i]).discord_id
        != discord_id by {
        if i < at {
            assert(rows[i].discord_id != rows[at].discord_id);
        } else {
            assert(rows[at].discord_id != rows[i].discord_id);
        }
    }
    lemma_filter_drops_one(rows, |row: LinkRow| row.discord_id != discord_id, at);
}

/// The link table. It holds at most one row for each chat user: a second
/// link for a user is refused here, whatever its callers checked before.
/// Changes go through `&mut self`, so two changes never interleave.
pub struct Database {
    rows: Vec<LinkedUser>,
}

impl View for Database {
    type V = Seq<LinkRow>;

    closed spec fn view(&self) -> Seq<LinkRow> {
        self.rows@.map_values(|user: LinkedUser| user@)
    }
}

impl Database {
    #[verifier::type_invariant]
    spec fn users_are_unique(self) -> bool {
        unique_users(self@)
    }

    /// An empty table.
    pub fn new() -> (db: Database)
        ensures
            db@ == Seq::<LinkRow>::empty(),
    {
        let db = Database { rows: Vec::new() };
        assert(db@ =~= Seq::<LinkRow>::empty());
        db
    }

    fn position(&self, discord_id: &str) -> (at: Option<usize>)
        ensures
            at is Some <==> has_user(self@, discord_id@),
            at matches Some(i) ==> i < self@.len() && self@[i as int].discord_id == discord_id@,
    {
        let mut i: usize = 0;
        while i < self.rows.len()
            invariant
                i <= self.rows@.len(),
                self@.len() == self.rows@.len(),
                forall|k: int| 0 <= k < i ==> (#[trigger] self@[k]).discord_id != discord_id@,
            decreases self.rows@.len() - i,
        {
            assert(self@[i as int] == self.rows@[i as int]@);
            if str_equal(self.rows[i].discord_id.as_str(), discord_id) {
                return Some(i);
            }
            i += 1;
        }
        None
    }

    /// Whether the chat user `discord_id` has a link.
    pub fn user_exists(&self, discord_id: &str) -> (found: bool)
        ensures
            found == has_user(self@, discord_id@),
            unique_users(self@),
    {
        proof {
            use_type_invariant(self);
        }
        self.position(discord_id).is_some()
    }

    /// Links the chat user `discord_id` to the account `faceit_id`. A user
    /// that already has a link keeps it: nothing is stored and the answer is
    /// `false`.
    pub fn add_user(&mut self, faceit_id: String, discord_id: String) -> (added: bool)
        ensures
            added == !has_user(old(self)@, discord_id@),
            added ==> final(self)@ == old(self)@.push(
                LinkRow { faceit_id: faceit_id@, discord_id: discord_id@ },
            ),
            !added ==> final(self)@ == old(self)@,
            unique_users(final(self)@),
    {
        proof {
            use_type_invariant(&*self);
        }
        if self.position(discord_id.as_str()).is_some() {
            return false;
        }
        let ghost before = self@;
        let mut rows: Vec<LinkedUser> = Vec::new();
        std::mem::swap(&mut rows, &mut self.rows);
        rows.push(LinkedUser { faceit_id, discord_id });
        proof {
            let after = rows@.map_values(|user: LinkedUser| user@);
            assert(after =~= before.push(
                LinkRow { faceit_id: faceit_id@, discord_id: discord_id@ },
            ));
            assert forall|i: int, j: int| 0 <= i < j < after.len() implies (#[trigger] after[i]).discord_id
                != (#[trigger] after[j]).discord_id by {
                if j < before.len() {
                    assert(after[i] == before[i] && after[j] == before[j]);
                } else {
                    assert(after[i] == before[i]);
                }
            }
        }
        self.rows = rows;
        true
    }

    /// Removes the link of the chat user `discord_id`. The answer says
    /// whether there was one; where there was, exactly one row leaves.
    pub fn unlink_user(&mut self, discord_id: &str) -> (removed: bool)
        ensures
            removed == has_user(old(self)@, discord_id@),
            final(self)@ == without_user(old(self)@, discord_id@),
            removed ==> final(self)@.len() + 1 == old(self)@.len(),
            !removed ==> final(self)@ == old(self)@,
            !has_user(final(self)@, discord_id@),
            unique_users(final(self)@),
    {
        proof {
            use_type_invariant(&*self);
        }
        let ghost before = self@;
        match self.position(discord_id) {
            None => {
                proof {
                    lemma_without_absent_user(before, discord_id@);
                }
                false
            },
            Some(at) => {
                let mut rows: Vec<LinkedUser> = Vec::new();
                std::mem::swap(&mut rows, &mut self.rows);
                let _ = rows.remove(at);
                proof {
                    let after = rows@.map_values(|user: LinkedUser| user@);
                    assert(after =~= before.remove(at as int));
                    lemma_without_present_user(before, at as int);
                    assert forall|i: int, j: int| 0 <= i < j < after.len() implies (
                    #[trigger] after[i]).discord_id != (#[trigger] after[j]).discord_id by {
                        let a = if i < at { i } else { i + 1 };
                        let b = if j < at { j } else { j + 1 };
                        assert(after[i] == before[a] && after[j] == before[b]);
                    }
                    assert forall|i: int| 0 <= i < after.len() implies (#[trigger] after[i]).discord_id
                        != discord_id@ by {
                        let a = if i < at { i } else { i + 1 };
                        assert(after[i] == before[a]);
                        if a < at {
                            assert(before[a].discord_id != before[at as int].discord_id);
                        } else {
                            assert(before[at as int].discord_id != before[a].discord_id);
                        }
                    }
                }
                self.rows = rows;
                true
            },
        }
    }

    /// The number of links.
    pub fn count_users(&self) -> (count: usize)
        ensures
            count == self@.len(),
    {
        self.rows.len()
    }

    /// Every link, oldest first.
    pub fn fetch_users(&self) -> (users: Vec<LinkedUser>)
        ensures
            users@.map_values(|user: LinkedUser| user@) == self@,
            unique_users(self@),
    {
        proof {
            use_type_invariant(self);
        }
        let mut users: Vec<LinkedUser> = Vec::new();
        let mut i: usize = 0;
        while i < self.rows.len()
            invariant
                i <= self.rows@.len(),
                users@.len() == i,
                forall|k: int| 0 <= k < i ==> (#[trigger] users@[k])@ == self.rows@[k]@,
            decreases self.rows@.len() - i,
        {
            users.push(self.rows[i].duplicate());
            i += 1;
        }
        assert(users@.map_values(|user: LinkedUser| user@) =~= self@);
        users
    }
}

} // verus!
