//! Telemetry decoding: the serial feed carries fixed-length frames, each a
//! `0x00` marker followed by four payload bytes `[minutes, seconds,
//! shot clock, trailer]`.  Minutes and seconds are encoded as
//! `raw = 2 * (255 - value)`, so decoding is `255 - raw / 2` with truncating
//! division.  The shot-clock and trailer bytes are read but deliberately not
//! validated: the protocol gives no rule to check them against.
//!
//! The reader task scans one byte at a time for the marker, then reads one
//! payload; a read error or a non-marker byte discards the partial frame and
//! returns to scanning.  A decoded pair is committed to the shared clock only
//! when its raw bytes differ from the last committed pair, which suppresses
//! redundant lock acquisitions.

use vstd::prelude::*;

verus! {

use crate::config::{FRAME_LEN, FRAME_MARKER};

/// Minutes and seconds most recently decoded from the scoreboard's serial
/// feed.  Shared: written by the decoder task, read by request handlers,
/// each under the clock cell's lock.
#[derive(Clone, Copy, PartialEq, Eq, Debug)]
pub struct TelemetryClock {
    pub min: u8,
    pub sec: u8,
}

impl TelemetryClock {
    /// The clock starts at `(0, 0)` and shows that until a first frame is
    /// committed.
    pub fn new() -> (r: TelemetryClock)
        ensures
            r.min == 0,
            r.sec == 0,
    {
        TelemetryClock { min: 0, sec: 0 }
    }
}

/// What a raw telemetry byte stands for: `255 - raw / 2`, truncating.
pub open spec fn decoded(raw: u8) -> u8 {
    (255 - raw / 2) as u8
}

/// Decodes one raw byte into a clock value.
pub fn decode_value(raw: u8) -> (r: u8)
    ensures
        r == decoded(raw),
{
    255 - raw / 2
}

/// Decoder state: the raw (minutes, seconds) byte pair of the last committed
/// frame.  It starts as `(0, 0)`, so a first frame whose raw pair is exactly
/// `(0, 0)` is not committed: the decoder cannot tell such a frame from the
/// state it started in.  A deliberate quirk; the next differing pair
/// corrects the clock.
#[derive(Clone, Copy, PartialEq, Eq, Debug)]
pub struct Decoder {
    pub prev_min_raw: u8,
    pub prev_sec_raw: u8,
}

impl Decoder {
    pub fn new() -> (r: Decoder)
        ensures
            r.prev_min_raw == 0,
            r.prev_sec_raw == 0,
    {
        Decoder { prev_min_raw: 0, prev_sec_raw: 0 }
    }

    /// Whether a byte read while scanning opens a frame.  Only the `0x00`
    /// marker does; anything else keeps the reader scanning, which is the
    /// whole resynchronization policy.
    pub fn marker_found(&self, b: u8) -> (r: bool)
        ensures
            r == (b == FRAME_MARKER),
    {
        b == FRAME_MARKER
    }

    /// Takes one complete frame payload and commits the decoded pair to the
    /// clock exactly when the raw (minutes, seconds) bytes differ from the
    /// last committed pair.  Returns whether a commit (and hence a clock-cell
    /// lock acquisition) happened.  Bytes 2 and 3 of the payload are ignored.
    pub fn on_frame(&mut self, frame: &[u8], clock: &mut TelemetryClock) -> (committed: bool)
        requires
            frame@.len() == FRAME_LEN as int,
        ensures
            committed == !(frame@[0] == old(self).prev_min_raw
                && frame@[1] == old(self).prev_sec_raw),
            committed ==> *final(self) == (Decoder {
                prev_min_raw: frame@[0],
                prev_sec_raw: frame@[1],
            }),
            committed ==> *final(clock) == (TelemetryClock {
                min: decoded(frame@[0]),
                sec: decoded(frame@[1]),
            }),
            !committed ==> *final(self) == *old(self) && *final(clock) == *old(clock),
    {
        let m = frame[0];
        let s = frame[1];
        if m == self.prev_min_raw && s == self.prev_sec_raw {
            false
        } else {
            self.prev_min_raw = m;
            self.prev_sec_raw = s;
            clock.min = decode_value(m);
            clock.sec = decode_value(s);
            true
        }
    }
}

/// The whole reader loop over a byte sequence: scan for the marker, take
/// the four payload bytes after it, commit the pair if it changed, resume
/// scanning after the payload.  Yields the decoder and clock afterwards and
/// how many commits happened.  A marker whose payload has not fully arrived
/// yet changes nothing — the reader would still be waiting for those bytes.
pub open spec fn spec_stream(d: Decoder, c: TelemetryClock, s: Seq<u8>) -> (
    Decoder,
    TelemetryClock,
    nat,
)
    decreases s.len(),
{
    if s.len() == 0 {
        (d, c, 0)
    } else if s[0] != FRAME_MARKER {
        spec_stream(d, c, s.skip(1))
    } else if s.len() < 1 + FRAME_LEN {
        (d, c, 0)
    } else {
        let m = s[1];
        let sec = s[2];
        let committed = !(m == d.prev_min_raw && sec == d.prev_sec_raw);
        let d2 = if committed {
            Decoder { prev_min_raw: m, prev_sec_raw: sec }
        } else {
            d
        };
        let c2 = if committed {
            TelemetryClock { min: decoded(m), sec: decoded(sec) }
        } else {
            c
        };
        let (d3, c3, k) = spec_stream(d2, c2, s.skip(1 + FRAME_LEN));
        (d3, c3, k + if committed {
            1nat
        } else {
            0nat
        })
    }
}

impl Decoder {
    /// Runs the reader loop over a batch of received bytes, committing to
    /// the clock as `spec_stream` says, and counts the commits.  The serial
    /// task calls this with whatever the link delivered; a trailing marker
    /// with an incomplete payload is left for the bytes still to come.
    pub fn process_stream(&mut self, clock: &mut TelemetryClock, bytes: &[u8]) -> (commits:
        u64)
        ensures
            ({
                let (d2, c2, k) = spec_stream(*old(self), *old(clock), bytes@);
                *final(self) == d2 && *final(clock) == c2 && commits == k
            }),
    {
        let n = bytes.len();
        let mut i: usize = 0;
        let mut commits: u64 = 0;
        proof {
            assert(bytes@.skip(0) =~= bytes@);
        }
        while i < n
            invariant
                i <= n,
                n == bytes@.len(),
                5 * commits <= i,
                ({
                    let (d2, c2, k) = spec_stream(*old(self), *old(clock), bytes@);
                    let (dr, cr, kr) = spec_stream(*self, *clock, bytes@.skip(i as int));
                    d2 == dr && c2 == cr && k == commits + kr
                }),
            decreases n - i,
        {
            let b = bytes[i];
            if !self.marker_found(b) {
                proof {
                    assert(bytes@.skip(i as int)[0] == bytes@[i as int]);
                    assert(bytes@.skip(i as int).skip(1) =~= bytes@.skip(i + 1));
                }
                i = i + 1;
            } else if n - i < 1 + FRAME_LEN {
                proof {
                    assert(bytes@.skip(i as int)[0] == bytes@[i as int]);
                    assert(bytes@.skip(i as int).len() < 1 + FRAME_LEN);
                }
                return commits;
            } else {
                let frame = vstd::slice::slice_subrange(bytes, i + 1, i + 1 + FRAME_LEN);
                proof {
                    let rest = bytes@.skip(i as int);
                    assert(rest[0] == bytes@[i as int]);
                    assert(frame@ =~= bytes@.subrange(i + 1, i + 1 + FRAME_LEN as int));
                    assert(frame@[0] == rest[1] && frame@[1] == rest[2]);
                    assert(rest.skip(1 + FRAME_LEN as int) =~= bytes@.skip(
                        i + 1 + FRAME_LEN as int));
                }
                if self.on_frame(frame, clock) {
                    commits = commits + 1;
                }
                i = i + 1 + FRAME_LEN;
            }
        }
        proof {
            assert(bytes@.skip(n as int) =~= Seq::<u8>::empty());
        }
        commits
    }
}

} // verus!
