//! The connection handler pool: `WEB_TASK_POOL_SIZE` identical long-running
//! tasks, each accepting one TCP connection on `HTTP_PORT`, running one
//! bounded request/response exchange against the route table, closing the
//! connection and accepting the next.  At most that many connections are
//! served concurrently; further clients queue at the accept layer.
//!
//! A slot's decision space deliberately has no way to halt: however an
//! exchange concludes — normally, by protocol error, or by hitting the read
//! or write timeout — the slot closes that connection and returns to
//! accepting on the same task, and an accept failure just retries.  The
//! timeouts themselves are the `config` constants, bundled here for the
//! server layer.

use vstd::prelude::*;

verus! {

use crate::config::{READ_TIMEOUT_MS, START_READ_TIMEOUT_MS, WRITE_TIMEOUT_MS};

/// Per-phase timeouts of one exchange.
#[derive(Clone, Copy, PartialEq, Eq, Debug)]
pub struct Timeouts {
    /// Receiving the first byte of a request.
    pub start_read_ms: u64,
    /// Reading the rest of the request.
    pub read_ms: u64,
    /// Flushing a response.
    pub write_ms: u64,
}

/// The timeouts the server runs with: 60 s to start and to finish reading,
/// 1 s to write.
pub fn server_timeouts() -> (r: Timeouts)
    ensures
        r == (Timeouts {
            start_read_ms: START_READ_TIMEOUT_MS,
            read_ms: READ_TIMEOUT_MS,
            write_ms: WRITE_TIMEOUT_MS,
        }),
{
    Timeouts {
        start_read_ms: START_READ_TIMEOUT_MS,
        read_ms: READ_TIMEOUT_MS,
        write_ms: WRITE_TIMEOUT_MS,
    }
}

/// How one accepted connection's exchange concluded.
#[derive(Clone, Copy, PartialEq, Eq, Debug)]
pub enum ServeOutcome {
    /// The exchange ran to completion, serving this many requests.
    Completed { requests: u64 },
    /// The client sent nothing, or too little, within the read timeouts.
    ReadTimeout,
    /// The response could not be flushed within the write timeout.
    WriteTimeout,
    /// The request was malformed beyond serving.
    ProtocolError,
}

/// The only directive a slot ever receives: close whatever connection it
/// had and accept the next one.  The type has no halting variant on
/// purpose — no outcome ends the slot's loop.
#[derive(Clone, Copy, PartialEq, Eq, Debug)]
pub enum SlotDirective {
    AcceptNext,
}

/// One pool slot's bookkeeping: how many connections it has concluded.
#[derive(Clone, Copy, PartialEq, Eq, Debug)]
pub struct PoolSlot {
    pub connections: u64,
}

impl PoolSlot {
    pub fn new() -> (r: PoolSlot)
        ensures
            r.connections == 0,
    {
        PoolSlot { connections: 0 }
    }

    /// A failed accept serves no connection; the slot immediately tries
    /// again.
    pub fn on_accept_error(&self) -> (d: SlotDirective)
        ensures
            d == SlotDirective::AcceptNext,
    {
        SlotDirective::AcceptNext
    }

    /// However the exchange concluded — a read or write timeout included —
    /// the connection is closed and the same slot accepts a new one.
    pub fn on_serve_outcome(&mut self, _outcome: ServeOutcome) -> (d: SlotDirective)
        requires
            old(self).connections < u64::MAX,
        ensures
            final(self).connections == old(self).connections + 1,
            d == SlotDirective::AcceptNext,
    {
        self.connections = self.connections + 1;
        SlotDirective::AcceptNext
    }
}

} // verus!
