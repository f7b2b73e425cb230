//! The route table of the HTTP control surface, as a total function from
//! method and path to a route.  Exactly five requests are served: `GET /`
//! (the static page), `POST /` (a logged form), `GET /set/{bool}`,
//! `GET /time` and `GET /ctrl/{id}`.  A path parameter that does not parse
//! matches no route.

use vstd::prelude::*;

verus! {

use crate::parse::{parse_bool, parse_i32, spec_parse_bool, spec_parse_i32};
use vstd::slice::slice_subrange;

/// Request methods the surface distinguishes.
#[derive(Clone, Copy, PartialEq, Eq, Debug)]
pub enum Method {
    Get,
    Post,
}

/// A matched route, parameters parsed.
#[derive(Clone, Copy, PartialEq, Eq, Debug)]
pub enum Route {
    /// `GET /`: the static HTML page.
    Index,
    /// `POST /`: a form submission.
    Submit,
    /// `GET /set/{bool}`: drive the radio indicator line.
    SetIndicator(bool),
    /// `GET /time`: read the telemetry clock.
    Time,
    /// `GET /ctrl/{id}`: drive a console button.
    Ctrl(i32),
    /// No route matched.
    NotFound,
}

/// The byte string `/set/`.
pub open spec fn set_prefix() -> Seq<u8> {
    seq![47u8, 115u8, 101u8, 116u8, 47u8]
}

/// The byte string `/ctrl/`.
pub open spec fn ctrl_prefix() -> Seq<u8> {
    seq![47u8, 99u8, 116u8, 114u8, 108u8, 47u8]
}

/// The route table.  Paths are matched byte for byte; the trailing segment
/// of `/set/` and `/ctrl/` is handed to the segment parser, and a segment
/// the parser refuses matches no route, as with a router that backtracks on
/// a failed path-parameter extraction.
pub open spec fn spec_route(m: Method, p: Seq<u8>) -> Route {
    match m {
        Method::Get => {
            if p == seq![47u8] {
                Route::Index
            } else if p == seq![47u8, 116u8, 105u8, 109u8, 101u8] {
                Route::Time
            } else if p.len() >= 5 && p.take(5) == set_prefix() {
                match spec_parse_bool(p.skip(5)) {
                    Some(v) => Route::SetIndicator(v),
                    None => Route::NotFound,
                }
            } else if p.len() >= 6 && p.take(6) == ctrl_prefix() {
                match spec_parse_i32(p.skip(6)) {
                    Some(id) => Route::Ctrl(id),
                    None => Route::NotFound,
                }
            } else {
                Route::NotFound
            }
        },
        Method::Post => {
            if p == seq![47u8] {
                Route::Submit
            } else {
                Route::NotFound
            }
        },
    }
}

/// Matches one request line against the route table.
pub fn route(m: Method, path: &[u8]) -> (r: Route)
    ensures
        r == spec_route(m, path@),
{
    let n = path.len();
    let is_root = n == 1 && path[0] == 47;
    match m {
        Method::Post => {
            if is_root {
                proof {
                    assert(path@ =~= seq![47u8]);
                }
                Route::Submit
            } else {
                Route::NotFound
            }
        },
        Method::Get => {
            if is_root {
                proof {
                    assert(path@ =~= seq![47u8]);
                }
                Route::Index
            } else if n == 5 && path[0] == 47 && path[1] == 116 && path[2] == 105 && path[3]
                == 109 && path[4] == 101 {
                proof {
                    assert(path@ =~= seq![47u8, 116u8, 105u8, 109u8, 101u8]);
                }
                Route::Time
            } else if n >= 5 && path[0] == 47 && path[1] == 115 && path[2] == 101 && path[3]
                == 116 && path[4] == 47 {
                proof {
                    assert(path@.take(5) =~= set_prefix());
                }
                let seg = slice_subrange(path, 5, n);
                proof {
                    assert(seg@ =~= path@.skip(5));
                }
                match parse_bool(seg) {
                    Some(v) => Route::SetIndicator(v),
                    None => Route::NotFound,
                }
            } else if n >= 6 && path[0] == 47 && path[1] == 99 && path[2] == 116 && path[3]
                == 114 && path[4] == 108 && path[5] == 47 {
                proof {
                    assert(path@.take(6) =~= ctrl_prefix());
                    assert(!(path@.len() >= 5 && path@.take(5) == set_prefix())) by {
                        if path@.len() >= 5 && path@.take(5) == set_prefix() {
                            assert(path@.take(5)[1] == path@[1]);
                        }
                    }
                }
                let seg = slice_subrange(path, 6, n);
                proof {
                    assert(seg@ =~= path@.skip(6));
                }
                match parse_i32(seg) {
                    Some(id) => Route::Ctrl(id),
                    None => Route::NotFound,
                }
            } else {
                proof {
                    assert(!(path@ == seq![47u8, 116u8, 105u8, 109u8, 101u8])) by {
                        if path@ == seq![47u8, 116u8, 105u8, 109u8, 101u8] {
                            assert(path@.len() == 5 && path@[0] == 47 && path@[1] == 116
                                && path@[2] == 105 && path@[3] == 109 && path@[4] == 101);
                        }
                    }
                    assert(!(path@.len() >= 5 && path@.take(5) == set_prefix())) by {
                        if path@.len() >= 5 && path@.take(5) == set_prefix() {
                            assert(path@.take(5)[0] == path@[0]);
                            assert(path@.take(5)[1] == path@[1]);
                            assert(path@.take(5)[2] == path@[2]);
                            assert(path@.take(5)[3] == path@[3]);
                            assert(path@.take(5)[4] == path@[4]);
                        }
                    }
                    assert(!(path@.len() >= 6 && path@.take(6) == ctrl_prefix())) by {
                        if path@.len() >= 6 && path@.take(6) == ctrl_prefix() {
                            assert(path@.take(6)[0] == path@[0]);
                            assert(path@.take(6)[1] == path@[1]);
                            assert(path@.take(6)[2] == path@[2]);
                            assert(path@.take(6)[3] == path@[3]);
                            assert(path@.take(6)[4] == path@[4]);
                            assert(path@.take(6)[5] == path@[5]);
                        }
                    }
                }
                Route::NotFound
            }
        },
    }
}

} // verus!
