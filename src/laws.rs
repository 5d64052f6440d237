//! What holds of the data-access operations across calls, stated over the
//! table model that their contracts use.
use vstd::prelude::*;
use crate::profile::{ProfileRec, QueryError};
use crate::table::{
    create_spec, delete_spec, has_profile, has_role, id_limit, lemma_joined_contains,
    list_spec, profile_ids_ok, profile_index, update_spec, TableView,
};

verus! {

/// Listing a table that holds no profiles returns an empty sequence.
pub proof fn lemma_list_of_no_profiles(t: TableView)
    requires
        t.profiles.len() == 0,
    ensures
        list_spec(t) == Seq::<ProfileRec>::empty(),
{
}

/// Creating a profile succeeds while ids are left, returns a positive id that
/// no stored profile had, with the given name and role, and a later listing
/// holds it (when its role exists) beside everything it held before.
pub proof fn lemma_create_then_list(t: TableView, name: Seq<char>, role_id: i32)
    requires
        t.wf(),
        t.next_profile_id < id_limit(),
    ensures
        ({
            let (t2, r) = create_spec(t, name, role_id);
            &&& r is Ok
            &&& r->Ok_0.id > 0
            &&& r->Ok_0.name == name
            &&& r->Ok_0.role_id == role_id
            &&& !has_profile(t.profiles, r->Ok_0.id)
            &&& t2.wf()
            &&& has_role(t.roles, role_id) ==> list_spec(t2).contains(r->Ok_0)
            &&& forall|q: ProfileRec| #[trigger] list_spec(t2).contains(q)
                <==> (list_spec(t).contains(q) || (q == r->Ok_0 && has_role(t.roles, role_id)))
        }),
{
    let (t2, r) = create_spec(t, name, role_id);
    let p = r->Ok_0;
    assert(!has_profile(t.profiles, p.id));
    assert forall|q: ProfileRec| #[trigger] list_spec(t2).contains(q)
        <==> (list_spec(t).contains(q) || (q == p && has_role(t.roles, role_id))) by {
        lemma_joined_contains(t.profiles, t.roles, q);
        lemma_joined_contains(t2.profiles, t2.roles, q);
        if t.profiles.contains(q) {
            let i = choose|i: int| 0 <= i < t.profiles.len() && t.profiles[i] == q;
            assert(t2.profiles[i] == q);
        }
        if t2.profiles.contains(q) {
            let i = choose|i: int| 0 <= i < t2.profiles.len() && t2.profiles[i] == q;
            if i < t.profiles.len() {
                assert(t.profiles[i] == q);
            }
        }
        if q == p {
            assert(t2.profiles[t.profiles.len() as int] == q);
        }
    }
}

/// Updating an id that no profile has fails and leaves the tables as they
/// were: no row is created.
pub proof fn lemma_update_missing(t: TableView, id: i32, name: Seq<char>, role_id: i32)
    requires
        !has_profile(t.profiles, id),
    ensures
        update_spec(t, id, name, role_id) == (t, Err::<ProfileRec, QueryError>(QueryError::NotFound)),
{
}

/// Updating a stored profile returns its new values, and a later listing
/// differs from the earlier one in that profile alone.
pub proof fn lemma_update_then_list(t: TableView, id: i32, name: Seq<char>, role_id: i32)
    requires
        t.wf(),
        has_profile(t.profiles, id),
    ensures
        ({
            let (t2, r) = update_spec(t, id, name, role_id);
            let p = ProfileRec { id, name, role_id };
            &&& r == Ok::<ProfileRec, QueryError>(p)
            &&& t2.wf()
            &&& forall|q: ProfileRec| #[trigger] list_spec(t2).contains(q)
                <==> ((list_spec(t).contains(q) && q.id != id) || (q == p && has_role(t.roles, role_id)))
        }),
{
    let (t2, r) = update_spec(t, id, name, role_id);
    let p = ProfileRec { id, name, role_id };
    let i = profile_index(t.profiles, id);
    assert forall|a: int, b: int|
        0 <= a < t2.profiles.len() && 0 <= b < t2.profiles.len() && a != b
            implies #[trigger] t2.profiles[a].id != #[trigger] t2.profiles[b].id by {
        assert(t.profiles[a].id != t.profiles[b].id);
    }
    assert(profile_ids_ok(t2.profiles, t2.next_profile_id));
    assert forall|q: ProfileRec| #[trigger] list_spec(t2).contains(q)
        <==> ((list_spec(t).contains(q) && q.id != id) || (q == p && has_role(t.roles, role_id))) by {
        lemma_joined_contains(t.profiles, t.roles, q);
        lemma_joined_contains(t2.profiles, t2.roles, q);
        if t.profiles.contains(q) && q.id != id {
            let k = choose|k: int| 0 <= k < t.profiles.len() && t.profiles[k] == q;
            assert(k != i);
            assert(t2.profiles[k] == q);
        }
        if t2.profiles.contains(q) {
            let k = choose|k: int| 0 <= k < t2.profiles.len() && t2.profiles[k] == q;
            if k != i {
                assert(t.profiles[k] == q);
                assert(t.profiles[k].id != t.profiles[i].id);
            }
        }
        if q == p {
            assert(t2.profiles[i] == q);
        }
    }
}

/// Deleting a stored profile returns its former values, a later listing
/// holds no profile with its id and is otherwise unchanged, and deleting it
/// again fails.
pub proof fn lemma_delete_then_list(t: TableView, id: i32)
    requires
        t.wf(),
        has_profile(t.profiles, id),
    ensures
        ({
            let (t2, r) = delete_spec(t, id);
            &&& r is Ok
            &&& t.profiles.contains(r->Ok_0)
            &&& r->Ok_0.id == id
            &&& t2.wf()
            &&& forall|q: ProfileRec| #[trigger] list_spec(t2).contains(q)
                <==> (list_spec(t).contains(q) && q.id != id)
            &&& delete_spec(t2, id) == (t2, Err::<ProfileRec, QueryError>(QueryError::NotFound))
        }),
{
    let (t2, r) = delete_spec(t, id);
    let i = profile_index(t.profiles, id);
    assert(t.profiles.contains(t.profiles[i]));
    // the row at `k` of the table after the delete
    assert forall|k: int| 0 <= k < t2.profiles.len()
        implies #[trigger] t2.profiles[k] == (if k < i { t.profiles[k] } else { t.profiles[k + 1] }) by {
    }
    assert forall|a: int, b: int|
        0 <= a < t2.profiles.len() && 0 <= b < t2.profiles.len() && a != b
            implies #[trigger] t2.profiles[a].id != #[trigger] t2.profiles[b].id by {
        let a0 = if a < i { a } else { a + 1 };
        let b0 = if b < i { b } else { b + 1 };
        assert(t2.profiles[a] == t.profiles[a0]);
        assert(t2.profiles[b] == t.profiles[b0]);
        assert(t.profiles[a0].id != t.profiles[b0].id);
    }
    assert forall|k: int| 0 <= k < t2.profiles.len() implies 1 <= #[trigger] t2.profiles[k].id < t2.next_profile_id by {
        let k0 = if k < i { k } else { k + 1 };
        assert(t2.profiles[k] == t.profiles[k0]);
    }
    assert(!has_profile(t2.profiles, id)) by {
        if has_profile(t2.profiles, id) {
            let k = choose|k: int| 0 <= k < t2.profiles.len() && #[trigger] t2.profiles[k].id == id;
            let k0 = if k < i { k } else { k + 1 };
            assert(t2.profiles[k] == t.profiles[k0]);
            assert(t.profiles[k0].id != t.profiles[i].id);
        }
    }
    assert forall|q: ProfileRec| #[trigger] list_spec(t2).contains(q)
        <==> (list_spec(t).contains(q) && q.id != id) by {
        lemma_joined_contains(t.profiles, t.roles, q);
        lemma_joined_contains(t2.profiles, t2.roles, q);
        if t.profiles.contains(q) && q.id != id {
            let k = choose|k: int| 0 <= k < t.profiles.len() && t.profiles[k] == q;
            assert(k != i);
            if k < i {
                assert(t2.profiles[k] == q);
            } else {
                assert(t2.profiles[k - 1] == q);
            }
        }
        if t2.profiles.contains(q) {
            let k = choose|k: int| 0 <= k < t2.profiles.len() && t2.profiles[k] == q;
            let k0 = if k < i { k } else { k + 1 };
            assert(t2.profiles[k] == t.profiles[k0]);
            assert(t.profiles[k0].id != t.profiles[i].id);
        }
    }
}

/// Two creates in a row both succeed while two ids are left, and they
/// receive distinct ids.
pub proof fn lemma_two_creates_distinct(t: TableView, name1: Seq<char>, role1: i32, name2: Seq<char>, role2: i32)
    requires
        t.wf(),
        t.next_profile_id + 1 < id_limit(),
    ensures
        ({
            let (t1, r1) = create_spec(t, name1, role1);
            let (t2, r2) = create_spec(t1, name2, role2);
            &&& r1 is Ok
            &&& r2 is Ok
            &&& r1->Ok_0.id != r2->Ok_0.id
            &&& t2.wf()
        }),
{
    lemma_create_then_list(t, name1, role1);
    let (t1, r1) = create_spec(t, name1, role1);
    lemma_create_then_list(t1, name2, role2);
}

} // verus!
