//! The parameterized statements that the service sends to its relational
//! store, and the reading of the rows that come back.
//!
//! Each statement's meaning over the two tables is the matching function of
//! `table`: listing is `list_spec`, creating `create_spec`, updating
//! `update_spec`, deleting `delete_spec`.
use vstd::prelude::*;
use crate::profile::{profile_outcome, QueryError, UserProfile};

verus! {

/// Lists the profiles joined with their roles.
pub const LIST_USERS_SQL: &'static str = "SELECT u.id, u.name, r.id AS role_id, r.name AS role_name FROM userprofile AS u JOIN userrole AS r ON u.role_id = r.id";

/// Inserts a profile (`$1` name, `$2` role id) and returns its row.
pub const CREATE_USER_SQL: &'static str = "INSERT INTO userprofile (name, role_id) VALUES ($1, $2) RETURNING id, name, role_id";

/// Updates a profile (`$1` name, `$2` role id, `$3` id) and returns its new row.
pub const UPDATE_USER_SQL: &'static str = "UPDATE userprofile SET name = $1, role_id = $2 WHERE id = $3 RETURNING id, name, role_id";

/// Deletes a profile (`$1` id) and returns its former row.
pub const DELETE_USER_SQL: &'static str = "DELETE FROM userprofile WHERE id = $1 RETURNING id, name, role_id";

/// A value bound to a statement's placeholder.
#[derive(Debug)]
pub enum Param {
    Text(String),
    Int(i32),
}

/// A bound value, as a mathematical value.
pub enum ParamView {
    Text(Seq<char>),
    Int(i32),
}

impl View for Param {
    type V = ParamView;

    open spec fn view(&self) -> ParamView {
        match self {
            Param::Text(s) => ParamView::Text(s@),
            Param::Int(n) => ParamView::Int(*n),
        }
    }
}

/// A statement's text with the values for its placeholders, `$1` first.
#[derive(Debug)]
pub struct Statement {
    pub sql: &'static str,
    pub params: Vec<Param>,
}

impl Statement {
    pub open spec fn params_view(&self) -> Seq<ParamView> {
        self.params@.map_values(|p: Param| p@)
    }

    /// The statement that lists every profile joined with its role.
    pub fn list_users() -> (r: Statement)
        ensures
            r.sql == LIST_USERS_SQL,
            r.params_view() == Seq::<ParamView>::empty(),
    {
        let r = Statement { sql: LIST_USERS_SQL, params: Vec::new() };
        assert(r.params_view() =~= Seq::<ParamView>::empty());
        r
    }

    /// The statement that inserts a profile with the body's name and role;
    /// the body's `id` is ignored, the store generates one.
    pub fn create_user(body: &UserProfile) -> (r: Statement)
        ensures
            r.sql == CREATE_USER_SQL,
            r.params_view() == seq![ParamView::Text(body.name@), ParamView::Int(body.role_id)],
    {
        let mut params: Vec<Param> = Vec::new();
        params.push(Param::Text(body.name.clone()));
        params.push(Param::Int(body.role_id));
        let r = Statement { sql: CREATE_USER_SQL, params };
        assert(r.params_view() =~= seq![ParamView::Text(body.name@), ParamView::Int(body.role_id)]);
        r
    }

    /// The statement that sets the name and role of the profile `id`; the id
    /// comes from the path, the body's own `id` is ignored.
    pub fn update_user(id: i32, body: &UserProfile) -> (r: Statement)
        ensures
            r.sql == UPDATE_USER_SQL,
            r.params_view() == seq![ParamView::Text(body.name@), ParamView::Int(body.role_id), ParamView::Int(id)],
    {
        let mut params: Vec<Param> = Vec::new();
        params.push(Param::Text(body.name.clone()));
        params.push(Param::Int(body.role_id));
        params.push(Param::Int(id));
        let r = Statement { sql: UPDATE_USER_SQL, params };
        assert(r.params_view() =~= seq![ParamView::Text(body.name@), ParamView::Int(body.role_id), ParamView::Int(id)]);
        r
    }

    /// The statement that deletes the profile `id`.
    pub fn delete_user(id: i32) -> (r: Statement)
        ensures
            r.sql == DELETE_USER_SQL,
            r.params_view() == seq![ParamView::Int(id)],
    {
        let mut params: Vec<Param> = Vec::new();
        params.push(Param::Int(id));
        let r = Statement { sql: DELETE_USER_SQL, params };
        assert(r.params_view() =~= seq![ParamView::Int(id)]);
        r
    }
}

/// What a statement that returns one row yields, given the rows that the
/// store sent back (or its failure): the first row, or `NotFound` when none
/// came back.
pub fn one_row(fetched: Result<Vec<UserProfile>, QueryError>) -> (r: Result<UserProfile, QueryError>)
    ensures
        profile_outcome(r) == match fetched {
            Ok(rows) => if rows@.len() == 0 {
                Err(QueryError::NotFound)
            } else {
                Ok(rows@[0]@)
            },
            Err(e) => Err(e),
        },
{
    match fetched {
        Ok(mut rows) => {
            if rows.len() == 0 {
                Err(QueryError::NotFound)
            } else {
                Ok(rows.swap_remove(0))
            }
        },
        Err(e) => Err(e),
    }
}

} // verus!
