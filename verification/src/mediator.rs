//! The mediator: drives one create or one lookup operation end to end —
//! validate, borrow a connection, execute against the table, release
//! the connection unconditionally, and classify the outcome.

use vstd::prelude::*;

use crate::pool::Pool;
use crate::table::{row_with_id, Table};
use crate::user::{is_created_from, same_user, valid_create, CreateUser, User};

verus! {

/// Status code of a successful read.
pub const STATUS_OK: u16 = 200;

/// Status code of a successful create.
pub const STATUS_CREATED: u16 = 201;

/// Status code of a request whose input failed shape validation.
pub const STATUS_BAD_REQUEST: u16 = 400;

/// Status code of a storage failure (constraint violation, lookup
/// miss, transport fault — all collapsed into one category).
pub const STATUS_INTERNAL_ERROR: u16 = 500;

/// Status code reported when no pooled connection became free within
/// the acquisition window.
pub const STATUS_UNAVAILABLE: u16 = 503;

/// Every way one operation can fail. Startup failures are not here:
/// they end the process before any operation runs.
#[derive(Debug)]
pub enum ApiError {
    /// No pooled connection became free within the acquisition window.
    /// Recoverable, surfaced per request.
    PoolTimeout,
    /// The input failed shape validation.
    Validation(String),
    /// The storage backend reported a failure, with its detail text.
    /// A lookup miss is reported through this same category.
    Storage(String),
}

/// The operation whose failure a response reports; a storage failure's
/// message names it.
#[derive(Clone, Copy, Debug)]
pub enum Operation {
    Create,
    Get,
}

/// The text that precedes the backend's detail in a storage failure
/// response, naming the operation that failed.
pub open spec fn storage_prefix(op: Operation) -> Seq<char> {
    match op {
        Operation::Create => "Failed to create user: "@,
        Operation::Get => "Failed to get user: "@,
    }
}

impl ApiError {
    /// The status code each error class maps to: validation failures
    /// are a client error, everything else a server error.
    pub open spec fn spec_status(self) -> u16 {
        match self {
            ApiError::PoolTimeout => STATUS_UNAVAILABLE,
            ApiError::Validation(_) => STATUS_BAD_REQUEST,
            ApiError::Storage(_) => STATUS_INTERNAL_ERROR,
        }
    }

    /// The status code of the response reporting this error.
    pub fn status(&self) -> (s: u16)
        ensures
            s == self.spec_status(),
            400 <= s < 600,
    {
        match self {
            ApiError::PoolTimeout => STATUS_UNAVAILABLE,
            ApiError::Validation(_) => STATUS_BAD_REQUEST,
            ApiError::Storage(_) => STATUS_INTERNAL_ERROR,
        }
    }

    /// The plain-text detail of the response reporting this error;
    /// never empty. A storage failure's text names the failed
    /// operation and carries the backend's detail.
    pub fn message(self, op: Operation) -> (m: String)
        ensures
            m@.len() > 0,
            self matches ApiError::Storage(d) ==> m@ == storage_prefix(op) + d@,
            self matches ApiError::Validation(d) ==> m@ == "invalid input: "@ + d@,
            self is PoolTimeout ==> m@ == "no database connection became available"@,
    {
        proof {
            reveal_strlit("Failed to create user: ");
            reveal_strlit("Failed to get user: ");
            reveal_strlit("invalid input: ");
            reveal_strlit("no database connection became available");
        }
        match self {
            ApiError::PoolTimeout => "no database connection became available".to_owned(),
            ApiError::Validation(d) => "invalid input: ".to_owned().concat(d.as_str()),
            ApiError::Storage(d) => match op {
                Operation::Create => "Failed to create user: ".to_owned().concat(d.as_str()),
                Operation::Get => "Failed to get user: ".to_owned().concat(d.as_str()),
            },
        }
    }
}

/// The process-wide state one operation works on: the pool's
/// bookkeeping and the table it mediates access to.
pub struct Service {
    pub pool: Pool,
    pub table: Table,
}

impl Service {
    /// Both components are in their well-formed states.
    pub open spec fn wf(self) -> bool {
        self.pool.wf() && self.table.wf()
    }

    /// A service over an empty table, nothing borrowed from the pool.
    pub fn new(max_connections: u32) -> (s: Service)
        ensures
            s.wf(),
            s.pool.max == max_connections,
            s.pool.in_use == 0,
            s.pool.next_token == 0,
            s.table.rows@.len() == 0,
            s.table.next_id == 1,
    {
        Service { pool: Pool::new(max_connections), table: Table::new() }
    }

    /// Create a user. Validates the input shape, borrows one
    /// connection, inserts, and releases the connection whatever the
    /// outcome — the pool is exactly as full afterwards as before.
    /// Succeeds exactly when the input is well-shaped and a connection
    /// is free; the created row carries the input's fields, a freshly
    /// assigned identifier distinct from every identifier assigned
    /// before, and both timestamps set to the creation instant.
    pub fn create(&mut self, input: &CreateUser, now: i64) -> (r: Result<User, ApiError>)
        requires
            old(self).wf(),
            old(self).table.next_id < i32::MAX,
            old(self).pool.next_token < u64::MAX,
        ensures
            final(self).wf(),
            final(self).pool.in_use == old(self).pool.in_use,
            final(self).pool.max == old(self).pool.max,
            old(self).pool.next_token <= final(self).pool.next_token <= old(self).pool.next_token
                + 1,
            r is Ok <==> valid_create(*input) && old(self).pool.can_acquire(),
            r matches Err(e) ==> {
                &&& final(self).table.rows@ == old(self).table.rows@
                &&& final(self).table.next_id == old(self).table.next_id
                &&& (e is Validation <==> !valid_create(*input))
                &&& (e is PoolTimeout <==> valid_create(*input) && !old(self).pool.can_acquire())
            },
            r matches Ok(u) ==> {
                &&& is_created_from(u, *input, old(self).table.next_id, now)
                &&& final(self).table.next_id == old(self).table.next_id + 1
                &&& final(self).table.rows@.len() == old(self).table.rows@.len() + 1
                &&& forall|i: int|
                    0 <= i < old(self).table.rows@.len() ==> final(self).table.rows@[i] == old(
                        self,
                    ).table.rows@[i]
                &&& forall|i: int|
                    0 <= i < old(self).table.rows@.len() ==> (#[trigger] old(
                        self,
                    ).table.rows@[i]).id != u.id
                &&& (row_with_id(final(self).table.rows@, u.id) matches Some(w) && same_user(u, w))
            },
    {
        if !input.validate() {
            proof {
                reveal_strlit("name and email must be non-empty");
            }
            return Err(
                ApiError::Validation("name and email must be non-empty".to_owned()),
            );
        }
        match self.pool.acquire() {
            None => Err(ApiError::PoolTimeout),
            Some(conn) => {
                let u = self.table.insert(input, now);
                self.pool.release(conn);
                Ok(u)
            },
        }
    }

    /// Look a user up by identifier. Borrows one connection and
    /// releases it whatever the outcome. Succeeds exactly when a
    /// connection is free and a row carries the identifier, returning
    /// that row unmodified; an identifier that was never assigned
    /// yields the storage error, indistinguishable from a backend
    /// fault.
    pub fn get_by_id(&mut self, id: i32) -> (r: Result<User, ApiError>)
        requires
            old(self).wf(),
            old(self).pool.next_token < u64::MAX,
        ensures
            final(self).wf(),
            final(self).pool.in_use == old(self).pool.in_use,
            final(self).pool.max == old(self).pool.max,
            old(self).pool.next_token <= final(self).pool.next_token <= old(self).pool.next_token
                + 1,
            final(self).table.rows@ == old(self).table.rows@,
            final(self).table.next_id == old(self).table.next_id,
            r is Ok <==> old(self).pool.can_acquire() && row_with_id(
                old(self).table.rows@,
                id,
            ) is Some,
            r matches Ok(u) ==> (row_with_id(old(self).table.rows@, id) matches Some(w)
                && same_user(u, w)),
            r matches Err(e) ==> {
                &&& (e is PoolTimeout <==> !old(self).pool.can_acquire())
                &&& (e is Storage <==> old(self).pool.can_acquire() && row_with_id(
                    old(self).table.rows@,
                    id,
                ) is None)
            },
    {
        match self.pool.acquire() {
            None => Err(ApiError::PoolTimeout),
            Some(conn) => {
                let found = self.table.lookup(id);
                self.pool.release(conn);
                match found {
                    Some(u) => Ok(u),
                    None => {
                        proof {
                            reveal_strlit("no row with the requested id");
                        }
                        Err(ApiError::Storage("no row with the requested id".to_owned()))
                    },
                }
            },
        }
    }
}

/// The liveness probe's response: always status 200; the body reports
/// whether the storage check passed.
pub fn health_response(database_reachable: bool) -> (r: (u16, String))
    ensures
        r.0 == STATUS_OK,
        database_reachable ==> r.1@ == "{\"status\":\"ok\",\"database\":\"connected\"}"@,
        !database_reachable ==> r.1@ == "{\"status\":\"ok\",\"database\":\"disconnected\"}"@,
        r.1@.len() > 0,
{
    proof {
        reveal_strlit("{\"status\":\"ok\",\"database\":\"connected\"}");
        reveal_strlit("{\"status\":\"ok\",\"database\":\"disconnected\"}");
    }
    if database_reachable {
        (STATUS_OK, "{\"status\":\"ok\",\"database\":\"connected\"}".to_owned())
    } else {
        (STATUS_OK, "{\"status\":\"ok\",\"database\":\"disconnected\"}".to_owned())
    }
}

} // verus!
