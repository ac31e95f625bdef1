use vstd::prelude::*;

verus! {

/// What went wrong with the persistent store.
#[derive(Debug, Clone, Copy, PartialEq, Eq)]
pub enum StoreError {
    /// The database file could not be opened, or its tables not created.
    Init,
    /// A row could not be inserted.
    Write,
}

/// An HTTP reply: its status code, and the text that is sent as a JSON string.
#[derive(Debug, Clone, Copy)]
pub struct Reply {
    pub status: u16,
    pub body: &'static str,
}

pub const STATUS_OK: u16 = 200;
pub const STATUS_NOT_FOUND: u16 = 404;
pub const STATUS_SERVER_ERROR: u16 = 500;

/// The reply to any path or method that no route serves.
pub fn not_found() -> (r: Reply)
    ensures
        r.status == STATUS_NOT_FOUND,
        r.body@ == "404 Not Found"@,
{
    Reply { status: STATUS_NOT_FOUND, body: "404 Not Found" }
}

/// The reply to a request that failed on the server's side.
pub fn internal_server_error() -> (r: Reply)
    ensures
        r.status == STATUS_SERVER_ERROR,
        r.body@ == "500 Internal Server Error"@,
{
    Reply { status: STATUS_SERVER_ERROR, body: "500 Internal Server Error" }
}

/// The reply to a user creation, given how writing the user to the store
/// went: a storage failure of either kind is reported to the caller.
pub fn user_reply(stored: Result<(), StoreError>) -> (r: Reply)
    ensures
        stored.is_ok() ==> r.status == STATUS_OK && r.body@ == "User created"@,
        stored.is_err() ==> r.status == STATUS_SERVER_ERROR && r.body@ == "500 Internal Server Error"@,
{
    match stored {
        Ok(()) => Reply { status: STATUS_OK, body: "User created" },
        Err(_) => internal_server_error(),
    }
}

/// The reply to a post creation. It is sent before the log row is written,
/// so it does not depend on how that write goes.
pub fn post_reply() -> (r: Reply)
    ensures
        r.status == STATUS_OK,
        r.body@ == "Post created"@,
{
    Reply { status: STATUS_OK, body: "Post created" }
}

} // verus!
