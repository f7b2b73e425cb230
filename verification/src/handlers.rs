//! Request handlers: what each matched route reads, changes and answers.
//!
//! Each handler touches at most one of the three shared cells — the radio
//! handle, the latch bank, the telemetry clock — and `route_cell` names
//! which, so no request path ever holds two locks and no lock ordering can
//! deadlock.  A handler that needs a timed pulse does not sleep; it returns
//! a plan for the task holding the latch-bank lock to perform.

use vstd::prelude::*;

verus! {

use crate::form::{parse_form, spec_parse_form, FormData};
use crate::latch::{pulse_plan, pulse_plan_spec, LatchOp};
use crate::radio::RadioControl;
use crate::routes::{Method, Route, spec_route};
use crate::telemetry::TelemetryClock;

/// What a handler answers.  Bodies are structured values; the server layer
/// renders them, debug-style, when it writes the response.
#[derive(Clone, Copy, PartialEq, Eq, Debug)]
pub enum Reply {
    /// The static HTML page.
    IndexPage,
    /// Redirect to `/` after a form submission.
    RedirectToIndex,
    /// The boolean of `/set/{bool}`, echoed unchanged.
    Bool(bool),
    /// The clock pair of `/time`.
    Time { min: u8, sec: u8 },
    /// `/ctrl/0`: the start/stop button was pulsed.
    StartStopButton,
    /// `/ctrl/{id}` for any other id: nothing was driven.
    UnknownFunction,
    /// A malformed body: the exchange is aborted and the connection closed.
    BadRequest,
    /// No route matched.
    NotFound,
}

/// The three independently locked cells of the shared state store.
#[derive(Clone, Copy, PartialEq, Eq, Debug)]
pub enum CellId {
    Radio,
    Latches,
    Clock,
}

/// The cell a route locks, if any: `/set` the radio handle, `/time` the
/// clock, `/ctrl/0` the latch bank.  Every route locks at most one cell —
/// the store is deadlock-free by construction.
pub open spec fn spec_route_cell(r: Route) -> Option<CellId> {
    match r {
        Route::SetIndicator(_) => Some(CellId::Radio),
        Route::Time => Some(CellId::Clock),
        Route::Ctrl(id) => if id == 0 {
            Some(CellId::Latches)
        } else {
            None
        },
        _ => None,
    }
}

/// Names the one cell to lock for a route.
pub fn route_cell(r: &Route) -> (c: Option<CellId>)
    ensures
        c == spec_route_cell(*r),
{
    match r {
        Route::SetIndicator(_) => Some(CellId::Radio),
        Route::Time => Some(CellId::Clock),
        Route::Ctrl(id) => if *id == 0 {
            Some(CellId::Latches)
        } else {
            None
        },
        _ => None,
    }
}

/// `GET /set/{v}`: drives the radio indicator line to `v` and echoes `v`.
pub fn handle_set(radio: &mut RadioControl, v: bool) -> (r: Reply)
    ensures
        *final(radio) == (RadioControl { indicator: v }),
        r == Reply::Bool(v),
{
    radio.set_indicator(v);
    Reply::Bool(v)
}

/// `GET /time`: reads the clock under its lock and answers the pair; before
/// any telemetry frame has been committed that pair is `(0, 0)`.
pub fn handle_time(clock: &TelemetryClock) -> (r: Reply)
    ensures
        r == (Reply::Time { min: clock.min, sec: clock.sec }),
{
    Reply::Time { min: clock.min, sec: clock.sec }
}

/// `GET /ctrl/{id}`: id 0 answers with the start/stop pulse plan to perform
/// under the latch-bank lock; any other id drives nothing.
pub fn handle_ctrl(id: i32) -> (r: (Vec<LatchOp>, Reply))
    ensures
        id == 0 ==> r.0@ == pulse_plan_spec() && r.1 == Reply::StartStopButton,
        id != 0 ==> r.0@ == Seq::<LatchOp>::empty() && r.1 == Reply::UnknownFunction,
{
    if id == 0 {
        (pulse_plan(), Reply::StartStopButton)
    } else {
        let empty: Vec<LatchOp> = Vec::new();
        proof {
            assert(empty@ =~= Seq::<LatchOp>::empty());
        }
        (empty, Reply::UnknownFunction)
    }
}

/// `POST /`: decodes the form, hands the decoded values out to be logged
/// — they mutate nothing — and redirects to `/`; a body that does not
/// decode aborts the exchange.
pub fn handle_submit(body: &[u8]) -> (r: (Option<FormData>, Reply))
    ensures
        match r.0 {
            Some(ref fd) => spec_parse_form(body@) == Some((fd.a, fd.b@))
                && r.1 == Reply::RedirectToIndex,
            None => spec_parse_form(body@) is None && r.1 == Reply::BadRequest,
        },
{
    match parse_form(body) {
        Some(fd) => (Some(fd), Reply::RedirectToIndex),
        None => (None, Reply::BadRequest),
    }
}

/// Plain-value view of the shared state store: the three cells' contents.
/// In the running system each sits behind its own exclusive-access lock and
/// a handler takes only the one `route_cell` names; their composite is the
/// state a serialized request sequence threads through.
#[derive(Clone, Copy, PartialEq, Eq, Debug)]
pub struct AppState {
    pub radio: RadioControl,
    pub latches: crate::latch::LatchBank,
    pub clock: TelemetryClock,
}

/// One whole exchange: the state afterwards, the latch plan to perform, the
/// values to log, and the reply.
pub open spec fn spec_handle(s: AppState, m: Method, path: Seq<u8>, body: Seq<u8>) -> (
    AppState,
    Seq<LatchOp>,
    Reply,
) {
    match spec_route(m, path) {
        Route::Index => (s, Seq::<LatchOp>::empty(), Reply::IndexPage),
        Route::Submit => (
            s,
            Seq::<LatchOp>::empty(),
            if spec_parse_form(body) is Some {
                Reply::RedirectToIndex
            } else {
                Reply::BadRequest
            },
        ),
        Route::SetIndicator(v) => (
            AppState { radio: RadioControl { indicator: v }, ..s },
            Seq::<LatchOp>::empty(),
            Reply::Bool(v),
        ),
        Route::Time => (s, Seq::<LatchOp>::empty(), Reply::Time { min: s.clock.min, sec: s.clock.sec }),
        Route::Ctrl(id) => if id == 0 {
            (s, pulse_plan_spec(), Reply::StartStopButton)
        } else {
            (s, Seq::<LatchOp>::empty(), Reply::UnknownFunction)
        },
        Route::NotFound => (s, Seq::<LatchOp>::empty(), Reply::NotFound),
    }
}

/// Routes one request and runs its handler against the store.  The latch
/// plan is returned, not yet applied: the caller performs it under the
/// latch-bank lock, sleeping on its waits.
pub fn handle_request(state: &mut AppState, m: Method, path: &[u8], body: &[u8]) -> (r: (
    Vec<LatchOp>,
    Reply,
))
    ensures
        ({
            let (s2, plan, reply) = spec_handle(*old(state), m, path@, body@);
            *final(state) == s2 && r.0@ == plan && r.1 == reply
        }),
{
    let rt = crate::routes::route(m, path);
    let empty_plan: Vec<LatchOp> = Vec::new();
    proof {
        assert(empty_plan@ =~= Seq::<LatchOp>::empty());
    }
    match rt {
        Route::Index => (empty_plan, Reply::IndexPage),
        Route::Submit => {
            let (_logged, reply) = handle_submit(body);
            (empty_plan, reply)
        },
        Route::SetIndicator(v) => {
            let reply = handle_set(&mut state.radio, v);
            (empty_plan, reply)
        },
        Route::Time => {
            let reply = handle_time(&state.clock);
            (empty_plan, reply)
        },
        Route::Ctrl(id) => handle_ctrl(id),
        Route::NotFound => (empty_plan, Reply::NotFound),
    }
}

} // verus!
