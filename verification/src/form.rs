//! The form accepted by `POST /`: a body of exactly two `key=value` fields
//! separated by `&`, keys `a` and `b` in either order, where `a` carries a
//! decimal 32-bit integer and `b` at most `FORM_TEXT_MAX` bytes of text.
//! The submission is only logged; it mutates no state.  A body that does
//! not fit this shape aborts the exchange, as a malformed request does.

use vstd::prelude::*;

verus! {

use crate::parse::{find_byte, lemma_find_first, spec_find, spec_parse_i32, parse_i32};
use vstd::slice::slice_subrange;
use vstd::slice::slice_to_vec;

/// Longest accepted `b` field, in bytes.
pub const FORM_TEXT_MAX: usize = 32;

/// A decoded submission: the integer field and the text field.
#[derive(PartialEq, Eq, Debug)]
pub struct FormData {
    pub a: i32,
    pub b: Vec<u8>,
}

/// One `key=value` field with key `a` or `b`: the key byte and the value.
pub open spec fn spec_field(f: Seq<u8>) -> Option<(u8, Seq<u8>)> {
    if f.len() >= 2 && f[1] == 61 && (f[0] == 97 || f[0] == 98) {
        Some((f[0], f.skip(2)))
    } else {
        None
    }
}

/// The two field values of a well-shaped body, as (`a` value, `b` value):
/// split at the first `&`, one field per side, one key each.
pub open spec fn spec_form_pair(s: Seq<u8>) -> Option<(Seq<u8>, Seq<u8>)> {
    match spec_find(s, 38) {
        None => None,
        Some(i) => match (spec_field(s.take(i)), spec_field(s.skip(i + 1))) {
            (Some(p1), Some(p2)) => if p1.0 == 97 && p2.0 == 98 {
                Some((p1.1, p2.1))
            } else if p1.0 == 98 && p2.0 == 97 {
                Some((p2.1, p1.1))
            } else {
                None
            },
            _ => None,
        },
    }
}

/// What `parse_form` accepts: a well-shaped body whose `a` value is an
/// in-range integer literal and whose `b` value is short enough.
pub open spec fn spec_parse_form(s: Seq<u8>) -> Option<(i32, Seq<u8>)> {
    match spec_form_pair(s) {
        None => None,
        Some(p) => match spec_parse_i32(p.0) {
            None => None,
            Some(a) => if p.1.len() <= FORM_TEXT_MAX as int {
                Some((a, p.1))
            } else {
                None
            },
        },
    }
}

/// Splits one field into its key byte and value bytes.
fn split_field<'a>(f: &'a [u8]) -> (r: Option<(u8, &'a [u8])>)
    ensures
        match r {
            Some(kv) => spec_field(f@) == Some((kv.0, kv.1@)),
            None => spec_field(f@) is None,
        },
{
    if f.len() >= 2 && f[1] == 61 && (f[0] == 97 || f[0] == 98) {
        let v = slice_subrange(f, 2, f.len());
        proof {
            assert(v@ =~= f@.skip(2));
        }
        Some((f[0], v))
    } else {
        None
    }
}

/// Decodes a submission; `Some` exactly on the bodies `spec_parse_form`
/// accepts, with the values it gives.
pub fn parse_form(body: &[u8]) -> (r: Option<FormData>)
    ensures
        match r {
            Some(fd) => spec_parse_form(body@) == Some((fd.a, fd.b@)),
            None => spec_parse_form(body@) is None,
        },
{
    let amp = match find_byte(body, 38) {
        None => {
            return None;
        },
        Some(i) => i,
    };
    proof {
        lemma_find_first(body@, 38);
    }
    let n = body.len();
    assert(amp < n);
    let left = slice_subrange(body, 0, amp);
    let right = slice_subrange(body, amp + 1, n);
    proof {
        assert(left@ =~= body@.take(amp as int));
        assert(right@ =~= body@.skip(amp + 1));
    }
    let f1 = match split_field(left) {
        None => {
            return None;
        },
        Some(kv) => kv,
    };
    let f2 = match split_field(right) {
        None => {
            return None;
        },
        Some(kv) => kv,
    };
    let (aval, bval): (&[u8], &[u8]) = if f1.0 == 97 && f2.0 == 98 {
        (f1.1, f2.1)
    } else if f1.0 == 98 && f2.0 == 97 {
        (f2.1, f1.1)
    } else {
        return None;
    };
    let a = match parse_i32(aval) {
        None => {
            return None;
        },
        Some(a) => a,
    };
    if bval.len() > FORM_TEXT_MAX {
        return None;
    }
    Some(FormData { a, b: slice_to_vec(bval) })
}

} // verus!
