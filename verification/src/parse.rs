//! Byte-level parsing used by the HTTP surface: the decimal integer of a
//! `/ctrl/{id}` segment and a form field, the boolean of a `/set/{bool}`
//! segment, and a first-occurrence scan used to split form bodies.  Each
//! parser's contract says exactly which byte strings it accepts and what
//! value they denote.

use vstd::prelude::*;

verus! {

/// ASCII decimal digit.
pub open spec fn is_digit(b: u8) -> bool {
    48 <= b && b <= 57
}

pub open spec fn all_digits(s: Seq<u8>) -> bool {
    forall|i: int| 0 <= i < s.len() ==> is_digit(#[trigger] s[i])
}

/// Value of a digit string, most significant digit first.
pub open spec fn digits_val(s: Seq<u8>) -> nat
    decreases s.len(),
{
    if s.len() == 0 {
        0
    } else {
        digits_val(s.drop_last()) * 10 + (s.last() - 48) as nat
    }
}

/// A longer digit string never has a smaller value.
pub proof fn lemma_digits_val_take(s: Seq<u8>, k: int)
    requires
        0 <= k <= s.len(),
    ensures
        digits_val(s.take(k)) <= digits_val(s),
    decreases s.len(),
{
    if k < s.len() {
        assert(s.drop_last().take(k) =~= s.take(k));
        lemma_digits_val_take(s.drop_last(), k);
    } else {
        assert(s.take(k) =~= s);
    }
}

/// Shape of a decimal integer literal: an optional `+` or `-` sign, then at
/// least one digit and nothing else.
pub open spec fn int_shape(s: Seq<u8>) -> bool {
    if s.len() == 0 {
        false
    } else if s[0] == 43 || s[0] == 45 {
        s.len() >= 2 && all_digits(s.skip(1))
    } else {
        all_digits(s)
    }
}

/// Signed value of an integer literal.
pub open spec fn int_val(s: Seq<u8>) -> int {
    if s.len() > 0 && s[0] == 45 {
        -(digits_val(s.skip(1)) as int)
    } else if s.len() > 0 && s[0] == 43 {
        digits_val(s.skip(1)) as int
    } else {
        digits_val(s) as int
    }
}

/// What `parse_i32` accepts: a well-shaped literal whose value fits an
/// `i32`, and nothing else.  Leading zeros are allowed, as the standard
/// string-to-integer conversion allows them.
pub open spec fn spec_parse_i32(s: Seq<u8>) -> Option<i32> {
    if int_shape(s) && i32::MIN <= int_val(s) <= i32::MAX {
        Some(int_val(s) as i32)
    } else {
        None
    }
}

/// Parses a decimal `i32` from bytes; `Some` exactly on well-shaped
/// in-range literals.
pub fn parse_i32(s: &[u8]) -> (r: Option<i32>)
    ensures
        r == spec_parse_i32(s@),
{
    let n = s.len();
    if n == 0 {
        return None;
    }
    let c0 = s[0];
    let neg = c0 == 45;
    let has_sign = neg || c0 == 43;
    let start: usize = if has_sign {
        1
    } else {
        0
    };
    if start >= n {
        return None;
    }
    let ghost digits = s@.skip(start as int);
    proof {
        if start == 0 {
            assert(digits =~= s@);
        }
    }
    let mut i: usize = start;
    let mut mag: u64 = 0;
    while i < n
        invariant
            start <= i <= n,
            start < n,
            n == s@.len(),
            neg == (s@[0] == 45),
            (s@[0] == 43 || s@[0] == 45) ==> start == 1,
            !(s@[0] == 43 || s@[0] == 45) ==> start == 0,
            digits == s@.skip(start as int),
            all_digits(s@.subrange(start as int, i as int)),
            mag == digits_val(s@.subrange(start as int, i as int)),
            mag <= 0x8000_0000,
        decreases n - i,
    {
        let b = s[i];
        if b < 48 || b > 57 {
            proof {
                assert(digits[i - start] == s@[i as int]);
                assert(!all_digits(digits));
                if start == 0 {
                    assert(s@.skip(0) =~= s@);
                }
                assert(!int_shape(s@));
            }
            return None;
        }
        let d = (b - 48) as u64;
        let nm = mag * 10 + d;
        proof {
            let pre = s@.subrange(start as int, i as int);
            let post = s@.subrange(start as int, i + 1);
            assert(post.drop_last() =~= pre);
            assert(post.last() == s@[i as int]);
        }
        if nm > 0x8000_0000 {
            proof {
                assert(digits.take(i + 1 - start) =~= s@.subrange(start as int, i + 1));
                lemma_digits_val_take(digits, i + 1 - start);
                assert(digits_val(digits) > 0x8000_0000);
                if start == 0 {
                    assert(s@.skip(0) =~= s@);
                }
                assert(!(int_shape(s@) && i32::MIN <= int_val(s@) <= i32::MAX));
            }
            return None;
        }
        mag = nm;
        i = i + 1;
    }
    proof {
        assert(s@.subrange(start as int, n as int) =~= digits);
    }
    if neg {
        if mag == 0x8000_0000 {
            Some(i32::MIN)
        } else {
            Some(0 - (mag as i32))
        }
    } else {
        if mag > 0x7fff_ffff {
            None
        } else {
            Some(mag as i32)
        }
    }
}

/// What `parse_bool` accepts: exactly the byte strings `true` and `false`.
pub open spec fn spec_parse_bool(s: Seq<u8>) -> Option<bool> {
    if s == seq![116u8, 114u8, 117u8, 101u8] {
        Some(true)
    } else if s == seq![102u8, 97u8, 108u8, 115u8, 101u8] {
        Some(false)
    } else {
        None
    }
}

/// Parses a boolean path segment.
pub fn parse_bool(s: &[u8]) -> (r: Option<bool>)
    ensures
        r == spec_parse_bool(s@),
{
    if s.len() == 4 && s[0] == 116 && s[1] == 114 && s[2] == 117 && s[3] == 101 {
        proof {
            assert(s@ =~= seq![116u8, 114u8, 117u8, 101u8]);
        }
        Some(true)
    } else if s.len() == 5 && s[0] == 102 && s[1] == 97 && s[2] == 108 && s[3] == 115 && s[4]
        == 101 {
        proof {
            assert(s@ =~= seq![102u8, 97u8, 108u8, 115u8, 101u8]);
        }
        Some(false)
    } else {
        proof {
            let t = seq![116u8, 114u8, 117u8, 101u8];
            let f = seq![102u8, 97u8, 108u8, 115u8, 101u8];
            assert(s@ != t && s@ != f) by {
                if s@ == t {
                    assert(s@.len() == 4 && s@[0] == 116 && s@[1] == 114 && s@[2] == 117
                        && s@[3] == 101);
                }
                if s@ == f {
                    assert(s@.len() == 5 && s@[0] == 102 && s@[1] == 97 && s@[2] == 108
                        && s@[3] == 115 && s@[4] == 101);
                }
            }
        }
        None
    }
}

/// Index of the first occurrence of `b` in `s`, if any.
pub open spec fn spec_find(s: Seq<u8>, b: u8) -> Option<int>
    decreases s.len(),
{
    if s.len() == 0 {
        None
    } else if s[0] == b {
        Some(0)
    } else {
        match spec_find(s.skip(1), b) {
            Some(i) => Some(i + 1),
            None => None,
        }
    }
}

/// `spec_find` names the first occurrence: everything before it differs
/// from `b`, and `None` means `b` does not occur at all.
pub proof fn lemma_find_first(s: Seq<u8>, b: u8)
    ensures
        match spec_find(s, b) {
            Some(i) => 0 <= i < s.len() && s[i] == b && forall|j: int|
                0 <= j < i ==> s[j] != b,
            None => forall|j: int| 0 <= j < s.len() ==> s[j] != b,
        },
    decreases s.len(),
{
    if s.len() > 0 && s[0] != b {
        lemma_find_first(s.skip(1), b);
        assert(forall|j: int| 1 <= j < s.len() ==> s[j] == s.skip(1)[j - 1]);
    }
}

/// Scans for the first occurrence of `b`.
pub fn find_byte(s: &[u8], b: u8) -> (r: Option<usize>)
    ensures
        match r {
            Some(i) => spec_find(s@, b) == Some(i as int),
            None => spec_find(s@, b) == None::<int>,
        },
{
    let n = s.len();
    let mut i: usize = 0;
    while i < n
        invariant
            i <= n,
            n == s@.len(),
            forall|j: int| 0 <= j < i ==> s@[j] != b,
        decreases n - i,
    {
        if s[i] == b {
            proof {
                lemma_find_first(s@, b);
                if spec_find(s@, b) is None {
                    assert(false);
                }
                let k = spec_find(s@, b)->Some_0;
                assert(s@[k] == b);
                assert(k == i as int);
            }
            return Some(i);
        }
        i = i + 1;
    }
    proof {
        lemma_find_first(s@, b);
        if spec_find(s@, b) is Some {
            let k = spec_find(s@, b)->Some_0;
            assert(s@[k] == b);
            assert(false);
        }
    }
    None
}

} // verus!
