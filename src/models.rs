use vstd::prelude::*;

verus! {

/// A registered user. The id is assigned by the in-memory user list.
#[derive(Debug, Clone)]
pub struct User {
    pub id: u32,
    pub username: String,
    pub email: String,
}

/// A post. `user_id` is whatever the caller supplied; it is never checked
/// against the users.
#[derive(Debug, Clone)]
pub struct Post {
    pub id: u32,
    pub user_id: u32,
    pub content: String,
}

} // verus!
