//! The two entities of the service and the error of a data-access operation.
use vstd::prelude::*;

verus! {

/// What a user profile is, as a mathematical value.
pub struct ProfileRec {
    pub id: i32,
    pub name: Seq<char>,
    pub role_id: i32,
}

/// What a user role is, as a mathematical value.
pub struct RoleRec {
    pub id: i32,
    pub name: Seq<char>,
}

/// A user profile: `id` is generated by the store, `role_id` names a role but
/// is not checked against the role table.
#[derive(Debug)]
pub struct UserProfile {
    pub id: i32,
    pub name: String,
    pub role_id: i32,
}

impl View for UserProfile {
    type V = ProfileRec;

    open spec fn view(&self) -> ProfileRec {
        ProfileRec { id: self.id, name: self.name@, role_id: self.role_id }
    }
}

/// A user role; profiles refer to it by `id`.
#[derive(Debug)]
pub struct UserRole {
    pub id: i32,
    pub name: String,
}

impl View for UserRole {
    type V = RoleRec;

    open spec fn view(&self) -> RoleRec {
        RoleRec { id: self.id, name: self.name@ }
    }
}

/// Why a single data-access operation failed.
#[derive(Clone, Copy, Debug, PartialEq, Eq, Structural)]
pub enum QueryError {
    /// No row matches the id that an update or a delete names.
    NotFound,
    /// The store reported a failure (connectivity, a constraint, an exhausted
    /// id sequence, a value it could not decode).
    Backend,
}

/// A profile result seen as a mathematical value.
pub open spec fn profile_outcome(r: Result<UserProfile, QueryError>) -> Result<ProfileRec, QueryError> {
    match r {
        Ok(p) => Ok(p@),
        Err(e) => Err(e),
    }
}

impl UserProfile {
    /// A field-by-field copy.
    pub fn duplicate(&self) -> (r: UserProfile)
        ensures
            r@ == self@,
    {
        UserProfile { id: self.id, name: self.name.clone(), role_id: self.role_id }
    }
}

impl UserRole {
    /// A field-by-field copy.
    pub fn duplicate(&self) -> (r: UserRole)
        ensures
            r@ == self@,
    {
        UserRole { id: self.id, name: self.name.clone() }
    }
}

} // verus!
