//! The meaning of the service's data-access statements, over a mathematical
//! model of its two tables.
//!
//! Each table is a sequence of rows in storage order. Ids come from one
//! sequence per table, start at 1, are never handed out twice, and end at
//! `i32::MAX` (the store's serial columns are 32-bit signed integers).
use vstd::prelude::*;
use crate::profile::{ProfileRec, QueryError, RoleRec};

verus! {

/// The two tables, with the next id that each sequence will hand out.
pub struct TableView {
    pub profiles: Seq<ProfileRec>,
    pub roles: Seq<RoleRec>,
    pub next_profile_id: int,
    pub next_role_id: int,
}

/// The largest id that a sequence hands out, plus one.
pub open spec fn id_limit() -> int {
    i32::MAX as int + 1
}

/// Every profile id lies in `1..next` and no two rows share one.
pub open spec fn profile_ids_ok(profiles: Seq<ProfileRec>, next: int) -> bool {
    &&& forall|i: int| 0 <= i < profiles.len() ==> 1 <= #[trigger] profiles[i].id < next
    &&& forall|i: int, j: int|
        0 <= i < profiles.len() && 0 <= j < profiles.len() && i != j
            ==> #[trigger] profiles[i].id != #[trigger] profiles[j].id
}

/// Every role id lies in `1..next` and no two rows share one.
pub open spec fn role_ids_ok(roles: Seq<RoleRec>, next: int) -> bool {
    &&& forall|i: int| 0 <= i < roles.len() ==> 1 <= #[trigger] roles[i].id < next
    &&& forall|i: int, j: int|
        0 <= i < roles.len() && 0 <= j < roles.len() && i != j
            ==> #[trigger] roles[i].id != #[trigger] roles[j].id
}

/// Some role has this id.
pub open spec fn has_role(roles: Seq<RoleRec>, role_id: i32) -> bool {
    exists|j: int| 0 <= j < roles.len() && #[trigger] roles[j].id == role_id
}

/// Some profile has this id.
pub open spec fn has_profile(profiles: Seq<ProfileRec>, id: i32) -> bool {
    exists|i: int| 0 <= i < profiles.len() && #[trigger] profiles[i].id == id
}

/// The position of the profile with this id.
pub open spec fn profile_index(profiles: Seq<ProfileRec>, id: i32) -> int {
    choose|i: int| 0 <= i < profiles.len() && #[trigger] profiles[i].id == id
}

/// The profiles that join with a role on `role_id`, in storage order.
pub open spec fn joined(profiles: Seq<ProfileRec>, roles: Seq<RoleRec>) -> Seq<ProfileRec>
    decreases profiles.len(),
{
    if profiles.len() == 0 {
        Seq::empty()
    } else {
        let rest = joined(profiles.drop_last(), roles);
        if has_role(roles, profiles.last().role_id) {
            rest.push(profiles.last())
        } else {
            rest
        }
    }
}

impl TableView {
    pub open spec fn wf(self) -> bool {
        &&& 1 <= self.next_profile_id <= id_limit()
        &&& 1 <= self.next_role_id <= id_limit()
        &&& profile_ids_ok(self.profiles, self.next_profile_id)
        &&& role_ids_ok(self.roles, self.next_role_id)
    }

    /// Two empty tables whose sequences start at 1.
    pub open spec fn empty() -> TableView {
        TableView {
            profiles: Seq::empty(),
            roles: Seq::empty(),
            next_profile_id: 1,
            next_role_id: 1,
        }
    }
}

/// What listing returns: each profile that joins with a role, projected to
/// its own `id`, `name` and `role_id`.
pub open spec fn list_spec(t: TableView) -> Seq<ProfileRec> {
    joined(t.profiles, t.roles)
}

/// Inserting a profile: it takes the next id, or fails when the sequence is
/// used up.
pub open spec fn create_spec(t: TableView, name: Seq<char>, role_id: i32) -> (TableView, Result<ProfileRec, QueryError>) {
    if t.next_profile_id < id_limit() {
        let p = ProfileRec { id: t.next_profile_id as i32, name, role_id };
        (TableView { profiles: t.profiles.push(p), next_profile_id: t.next_profile_id + 1, ..t }, Ok(p))
    } else {
        (t, Err(QueryError::Backend))
    }
}

/// Updating the profile with this id in place, returning its new values; no
/// such row is an error and changes nothing.
pub open spec fn update_spec(t: TableView, id: i32, name: Seq<char>, role_id: i32) -> (TableView, Result<ProfileRec, QueryError>) {
    if has_profile(t.profiles, id) {
        let p = ProfileRec { id, name, role_id };
        (TableView { profiles: t.profiles.update(profile_index(t.profiles, id), p), ..t }, Ok(p))
    } else {
        (t, Err(QueryError::NotFound))
    }
}

/// Deleting the profile with this id, returning its former values; no such
/// row is an error and changes nothing.
pub open spec fn delete_spec(t: TableView, id: i32) -> (TableView, Result<ProfileRec, QueryError>) {
    if has_profile(t.profiles, id) {
        let i = profile_index(t.profiles, id);
        (TableView { profiles: t.profiles.remove(i), ..t }, Ok(t.profiles[i]))
    } else {
        (t, Err(QueryError::NotFound))
    }
}

/// Inserting a role: it takes the next role id, or fails when that sequence
/// is used up.
pub open spec fn add_role_spec(t: TableView, name: Seq<char>) -> (TableView, Result<RoleRec, QueryError>) {
    if t.next_role_id < id_limit() {
        let r = RoleRec { id: t.next_role_id as i32, name };
        (TableView { roles: t.roles.push(r), next_role_id: t.next_role_id + 1, ..t }, Ok(r))
    } else {
        (t, Err(QueryError::Backend))
    }
}

/// A profile is listed exactly when it is stored and joins with a role.
pub proof fn lemma_joined_contains(profiles: Seq<ProfileRec>, roles: Seq<RoleRec>, q: ProfileRec)
    ensures
        joined(profiles, roles).contains(q) <==> (profiles.contains(q) && has_role(roles, q.role_id)),
    decreases profiles.len(),
{
    if profiles.len() > 0 {
        let front = profiles.drop_last();
        lemma_joined_contains(front, roles, q);
        let rest = joined(front, roles);
        if profiles.contains(q) && has_role(roles, q.role_id) {
            let i = choose|i: int| 0 <= i < profiles.len() && profiles[i] == q;
            if i < profiles.len() - 1 {
                assert(front[i] == q);
                let k = choose|k: int| 0 <= k < rest.len() && rest[k] == q;
                assert(joined(profiles, roles)[k] == q);
            } else {
                assert(joined(profiles, roles).last() == q);
            }
        }
        if joined(profiles, roles).contains(q) {
            let k = choose|k: int| 0 <= k < joined(profiles, roles).len() && joined(profiles, roles)[k] == q;
            if k < rest.len() {
                assert(rest[k] == q);
                let i = choose|i: int| 0 <= i < front.len() && front[i] == q;
                assert(profiles[i] == q);
            } else {
                assert(profiles.last() == q);
                assert(profiles[profiles.len() - 1] == q);
            }
        }
    }
}

/// In a table whose ids are unique, the position of an id is the one position
/// that holds it.
pub proof fn lemma_profile_index(profiles: Seq<ProfileRec>, next: int, id: i32, i: int)
    requires
        profile_ids_ok(profiles, next),
        0 <= i < profiles.len(),
        profiles[i].id == id,
    ensures
        has_profile(profiles, id),
        profile_index(profiles, id) == i,
{
    assert(has_profile(profiles, id));
}

} // verus!
