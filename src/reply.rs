//! How each route answers: a status and a body.
use vstd::prelude::*;
use crate::profile::{QueryError, UserProfile};

verus! {

/// The status of a successful reply.
pub const STATUS_OK: u16 = 200;

/// The status of a reply to a failed data-access operation.
pub const STATUS_SERVER_ERROR: u16 = 500;

/// The greeting of the root route.
pub const GREETING: &'static str = "Hello world!";

/// What a reply carries.
#[derive(Debug)]
pub enum Body {
    /// Nothing: the body of every failure.
    Empty,
    /// Plain text.
    Text(&'static str),
    /// A list of profiles, sent as structured data.
    Profiles(Vec<UserProfile>),
    /// One profile, sent as structured data.
    Profile(UserProfile),
}

/// A status and a body.
#[derive(Debug)]
pub struct Reply {
    pub status: u16,
    pub body: Body,
}

/// The root route: the greeting, whatever state the store is in.
pub fn hello() -> (r: Reply)
    ensures
        r.status == STATUS_OK,
        r.body == Body::Text(GREETING),
{
    Reply { status: STATUS_OK, body: Body::Text(GREETING) }
}

/// The reply to a listing: the profiles with 200, or an empty 500 on any
/// failure.
pub fn list_reply(res: Result<Vec<UserProfile>, QueryError>) -> (r: Reply)
    ensures
        match res {
            Ok(v) => r.status == STATUS_OK && r.body == Body::Profiles(v),
            Err(_) => r.status == STATUS_SERVER_ERROR && r.body == Body::Empty,
        },
{
    match res {
        Ok(v) => Reply { status: STATUS_OK, body: Body::Profiles(v) },
        Err(_) => Reply { status: STATUS_SERVER_ERROR, body: Body::Empty },
    }
}

/// The reply to a create, an update or a delete: the profile with 200, or an
/// empty 500 on any failure, `NotFound` included.
pub fn profile_reply(res: Result<UserProfile, QueryError>) -> (r: Reply)
    ensures
        match res {
            Ok(p) => r.status == STATUS_OK && r.body == Body::Profile(p),
            Err(_) => r.status == STATUS_SERVER_ERROR && r.body == Body::Empty,
        },
{
    match res {
        Ok(p) => Reply { status: STATUS_OK, body: Body::Profile(p) },
        Err(_) => Reply { status: STATUS_SERVER_ERROR, body: Body::Empty },
    }
}

} // verus!
