//! An in-process profile table with the meaning that `table` gives to each
//! statement: a store for running the service's logic without a database
//! server, and the executable witness of that meaning.
use vstd::prelude::*;
use crate::profile::{profile_outcome, QueryError, RoleRec, UserProfile, UserRole};
use crate::table::{
    add_role_spec, create_spec, delete_spec, has_profile, has_role, joined,
    lemma_profile_index, list_spec, update_spec, TableView,
};

verus! {

/// The two tables held in memory, with their id sequences.
pub struct MemoryStore {
    profiles: Vec<UserProfile>,
    roles: Vec<UserRole>,
    next_profile_id: i64,
    next_role_id: i64,
}

impl View for MemoryStore {
    type V = TableView;

    closed spec fn view(&self) -> TableView {
        TableView {
            profiles: self.profiles@.map_values(|p: UserProfile| p@),
            roles: self.roles@.map_values(|r: UserRole| r@),
            next_profile_id: self.next_profile_id as int,
            next_role_id: self.next_role_id as int,
        }
    }
}

/// A role result seen as a mathematical value.
pub open spec fn role_outcome(r: Result<UserRole, QueryError>) -> Result<RoleRec, QueryError> {
    match r {
        Ok(x) => Ok(x@),
        Err(e) => Err(e),
    }
}

impl MemoryStore {
    /// Two empty tables; both sequences start at 1.
    pub fn new() -> (r: MemoryStore)
        ensures
            r@ == TableView::empty(),
            r@.wf(),
    {
        let r = MemoryStore { profiles: Vec::new(), roles: Vec::new(), next_profile_id: 1, next_role_id: 1 };
        assert(r@.profiles =~= Seq::empty());
        assert(r@.roles =~= Seq::empty());
        r
    }

    /// Whether a role has this id.
    fn role_exists(&self, role_id: i32) -> (r: bool)
        ensures
            r == has_role(self@.roles, role_id),
    {
        let mut j: usize = 0;
        while j < self.roles.len()
            invariant
                j <= self.roles@.len(),
                forall|k: int| 0 <= k < j ==> #[trigger] self@.roles[k].id != role_id,
            decreases self.roles@.len() - j,
        {
            if self.roles[j].id == role_id {
                assert(self@.roles[j as int].id == role_id);
                return true;
            }
            j += 1;
        }
        false
    }

    /// The position of the profile with this id, if one has it.
    fn position(&self, id: i32) -> (r: Option<usize>)
        ensures
            match r {
                Some(i) => i < self@.profiles.len() && self@.profiles[i as int].id == id,
                None => !has_profile(self@.profiles, id),
            },
    {
        let mut i: usize = 0;
        while i < self.profiles.len()
            invariant
                i <= self.profiles@.len(),
                forall|k: int| 0 <= k < i ==> #[trigger] self@.profiles[k].id != id,
            decreases self.profiles@.len() - i,
        {
            if self.profiles[i].id == id {
                return Some(i);
            }
            i += 1;
        }
        None
    }

    /// Inserts a role with the next role id.
    pub fn add_role(&mut self, name: String) -> (r: Result<UserRole, QueryError>)
        requires
            old(self)@.wf(),
        ensures
            final(self)@.wf(),
            (final(self)@, role_outcome(r)) == add_role_spec(old(self)@, name@),
    {
        if self.next_role_id < i32::MAX as i64 + 1 {
            let role = UserRole { id: self.next_role_id as i32, name };
            let out = role.duplicate();
            self.roles.push(role);
            self.next_role_id = self.next_role_id + 1;
            assert(self@.roles =~= old(self)@.roles.push(out@));
            Ok(out)
        } else {
            Err(QueryError::Backend)
        }
    }

    /// Every profile that joins with a role, in storage order.
    pub fn list_users(&self) -> (r: Vec<UserProfile>)
        requires
            self@.wf(),
        ensures
            r@.map_values(|p: UserProfile| p@) == list_spec(self@),
    {
        let mut out: Vec<UserProfile> = Vec::new();
        let mut i: usize = 0;
        while i < self.profiles.len()
            invariant
                i <= self.profiles@.len(),
                out@.map_values(|p: UserProfile| p@) == joined(self@.profiles.subrange(0, i as int), self@.roles),
            decreases self.profiles@.len() - i,
        {
            let ghost before = out@.map_values(|p: UserProfile| p@);
            let ghost front = self@.profiles.subrange(0, i as int);
            let ghost grown = self@.profiles.subrange(0, i as int + 1);
            assert(grown.drop_last() =~= front);
            assert(grown.last() == self.profiles@[i as int]@);
            if self.role_exists(self.profiles[i].role_id) {
                out.push(self.profiles[i].duplicate());
                assert(out@.map_values(|p: UserProfile| p@) =~= before.push(self.profiles@[i as int]@));
            }
            i += 1;
        }
        assert(self@.profiles.subrange(0, self.profiles@.len() as int) =~= self@.profiles);
        out
    }

    /// Inserts a profile with the next profile id and returns it.
    pub fn create_user(&mut self, name: String, role_id: i32) -> (r: Result<UserProfile, QueryError>)
        requires
            old(self)@.wf(),
        ensures
            final(self)@.wf(),
            (final(self)@, profile_outcome(r)) == create_spec(old(self)@, name@, role_id),
    {
        if self.next_profile_id < i32::MAX as i64 + 1 {
            let p = UserProfile { id: self.next_profile_id as i32, name, role_id };
            let out = p.duplicate();
            self.profiles.push(p);
            self.next_profile_id = self.next_profile_id + 1;
            assert(self@.profiles =~= old(self)@.profiles.push(out@));
            Ok(out)
        } else {
            Err(QueryError::Backend)
        }
    }

    /// Sets the name and role of the profile with this id and returns its new
    /// values; fails with `NotFound` when no profile has the id.
    pub fn update_user(&mut self, id: i32, name: String, role_id: i32) -> (r: Result<UserProfile, QueryError>)
        requires
            old(self)@.wf(),
        ensures
            final(self)@.wf(),
            (final(self)@, profile_outcome(r)) == update_spec(old(self)@, id, name@, role_id),
    {
        match self.position(id) {
            Some(i) => {
                proof {
                    lemma_profile_index(self@.profiles, self@.next_profile_id, id, i as int);
                }
                let p = UserProfile { id, name, role_id };
                let out = p.duplicate();
                self.profiles.set(i, p);
                assert(self@.profiles =~= old(self)@.profiles.update(i as int, out@));
                Ok(out)
            },
            None => Err(QueryError::NotFound),
        }
    }

    /// Removes the profile with this id and returns its former values; fails
    /// with `NotFound` when no profile has the id.
    pub fn delete_user(&mut self, id: i32) -> (r: Result<UserProfile, QueryError>)
        requires
            old(self)@.wf(),
        ensures
            final(self)@.wf(),
            (final(self)@, profile_outcome(r)) == delete_spec(old(self)@, id),
    {
        match self.position(id) {
            Some(i) => {
                proof {
                    lemma_profile_index(self@.profiles, self@.next_profile_id, id, i as int);
                }
                let p = self.profiles.remove(i);
                assert(self@.profiles =~= old(self)@.profiles.remove(i as int));
                Ok(p)
            },
            None => Err(QueryError::NotFound),
        }
    }
}

} // verus!
