//! Bookkeeping model of the bounded connection pool.
//!
//! The pool owns a fixed number of storage connections. An operation
//! acquires one for its whole duration and releases it unconditionally
//! before returning. Exclusivity of a borrowed connection is carried by
//! ownership of the `Conn` value: acquiring moves a fresh token out,
//! releasing takes it back.

use vstd::prelude::*;

verus! {

/// The maximum number of concurrently open connections.
pub const POOL_MAX_CONNECTIONS: u32 = 5;

/// The acquisition timeout, in seconds.
pub const POOL_ACQUIRE_TIMEOUT_SECS: u64 = 30;

/// One borrowed connection. The token is unique among all connections
/// the pool has ever handed out.
pub struct Conn {
    pub token: u64,
}

/// The pool's bookkeeping state: how many connections it may open, how
/// many are currently borrowed, and the next unused token.
pub struct Pool {
    pub max: u32,
    pub in_use: u32,
    pub next_token: u64,
}

impl Pool {
    /// The pool never has more connections borrowed than it may open.
    pub open spec fn wf(self) -> bool {
        self.in_use <= self.max
    }

    /// An acquisition request completes (rather than waiting for a
    /// release or timing out) exactly when a connection is free.
    pub open spec fn can_acquire(self) -> bool {
        self.in_use < self.max
    }

    /// A fresh pool with the given capacity and nothing borrowed.
    pub fn new(max: u32) -> (p: Pool)
        ensures
            p.wf(),
            p.max == max,
            p.in_use == 0,
            p.next_token == 0,
    {
        Pool { max, in_use: 0, next_token: 0 }
    }

    /// Try to borrow one connection. Returns `None` exactly when every
    /// connection is already borrowed — the case in which a real
    /// acquisition would block and may time out.
    pub fn acquire(&mut self) -> (r: Option<Conn>)
        requires
            old(self).wf(),
            old(self).next_token < u64::MAX,
        ensures
            final(self).wf(),
            final(self).max == old(self).max,
            r is Some <==> old(self).can_acquire(),
            r matches Some(c) ==> {
                &&& final(self).in_use == old(self).in_use + 1
                &&& c.token == old(self).next_token
                &&& final(self).next_token == old(self).next_token + 1
            },
            r is None ==> *final(self) == *old(self),
    {
        if self.in_use < self.max {
            let c = Conn { token: self.next_token };
            self.in_use = self.in_use + 1;
            self.next_token = self.next_token + 1;
            Some(c)
        } else {
            None
        }
    }

    /// Give a borrowed connection back. Consumes the token, so a
    /// connection cannot be returned twice nor used after release.
    pub fn release(&mut self, c: Conn)
        requires
            old(self).wf(),
            old(self).in_use > 0,
            c.token < old(self).next_token,
        ensures
            final(self).wf(),
            final(self).max == old(self).max,
            final(self).in_use == old(self).in_use - 1,
            final(self).next_token == old(self).next_token,
    {
        let _ = c;
        self.in_use = self.in_use - 1;
    }
}

/// Acquisition never oversteps the configured bound: a pool in which
/// every connection is borrowed admits no further acquisition, and once
/// one operation completes (releasing its connection) the next request
/// can be served.
pub proof fn lemma_full_pool_blocks_until_release(full: Pool, after_release: Pool)
    requires
        full.wf(),
        full.in_use == full.max,
        after_release.wf(),
        after_release.max == full.max,
        after_release.in_use + 1 == full.in_use,
    ensures
        !full.can_acquire(),
        after_release.can_acquire(),
{
}

/// Tokens are handed out strictly increasing, so two connections
/// acquired over the pool's lifetime never share a token: a borrowed
/// connection is held exclusively.
pub proof fn lemma_tokens_distinct(before: Pool, between: Pool, c1: Conn, c2: Conn)
    requires
        c1.token == before.next_token,
        between.next_token > before.next_token,
        c2.token == between.next_token,
    ensures
        c1.token != c2.token,
{
}

} // verus!
