//! What the network layer computes before and after it talks to the actor:
//! seek targets from millisecond offsets, the "now playing" report, and
//! which files of a music directory are audio files.

use vstd::prelude::*;
use crate::time::{max_nanos, Span, NANOS_PER_MILLI};

verus! {

/// The "now playing" report: the song's id, position and duration in whole
/// milliseconds, and the pause flag.
#[derive(Debug, Clone, Copy, PartialEq, Eq)]
pub struct Now {
    pub id: u32,
    pub pos: u128,
    pub dur: u128,
    pub pause: bool,
}

/// The report for the current item, or `None` where nothing is current, in
/// which case the caller answers "not playing".
pub fn now_playing(item: Option<(u32, String)>, pos: Span, dur: Span, pause: bool) -> (report: Option<Now>)
    ensures
        match item {
            Some(current) => report == Some(
                Now {
                    id: current.0,
                    pos: (pos@ / (NANOS_PER_MILLI as nat)) as u128,
                    dur: (dur@ / (NANOS_PER_MILLI as nat)) as u128,
                    pause,
                },
            ),
            None => report.is_none(),
        },
{
    match item {
        Some(current) => Some(
            Now { id: current.0, pos: pos.as_millis(), dur: dur.as_millis(), pause },
        ),
        None => None,
    }
}

/// The target of an absolute seek to `millis` milliseconds.
pub fn seek_to(millis: u32) -> (target: Span)
    ensures
        target@ == millis * NANOS_PER_MILLI,
{
    Span::from_millis(millis as u64)
}

/// The target of a seek `millis` milliseconds forward from `now`.
pub fn seek_forward(now: Span, millis: u32) -> (target: Span)
    ensures
        target@ == if now@ + millis * NANOS_PER_MILLI <= max_nanos() {
            now@ + millis * NANOS_PER_MILLI
        } else {
            max_nanos() as int
        },
{
    now.saturating_add(Span::from_millis(millis as u64))
}

/// The target of a seek `millis` milliseconds back from `now`: the start
/// where `now` is less than that far in.
pub fn seek_back(now: Span, millis: u32) -> (target: Span)
    ensures
        target@ == if now@ < millis * NANOS_PER_MILLI {
            0
        } else {
            now@ - millis * NANOS_PER_MILLI
        },
{
    now.saturating_sub(Span::from_millis(millis as u64))
}

/// Whether `tail` is the end of `text`.
pub open spec fn ends_with(text: Seq<u8>, tail: Seq<u8>) -> bool {
    tail.len() <= text.len() && text.subrange(text.len() - tail.len(), text.len() as int) == tail
}

/// `.ogg`
pub open spec fn ext_ogg() -> Seq<u8> {
    seq![0x2eu8, 0x6fu8, 0x67u8, 0x67u8]
}

/// `.mp3`
pub open spec fn ext_mp3() -> Seq<u8> {
    seq![0x2eu8, 0x6du8, 0x70u8, 0x33u8]
}

/// `.m4a`
pub open spec fn ext_m4a() -> Seq<u8> {
    seq![0x2eu8, 0x6du8, 0x34u8, 0x61u8]
}

/// `.wav`
pub open spec fn ext_wav() -> Seq<u8> {
    seq![0x2eu8, 0x77u8, 0x61u8, 0x76u8]
}

/// `.flac`
pub open spec fn ext_flac() -> Seq<u8> {
    seq![0x2eu8, 0x66u8, 0x6cu8, 0x61u8, 0x63u8]
}

/// Whether a path, given as its bytes, names an audio file: it ends in
/// `.ogg`, `.mp3`, `.m4a`, `.wav` or `.flac`, in lower case.
pub open spec fn is_music_spec(path: Seq<u8>) -> bool {
    ||| ends_with(path, ext_ogg())
    ||| ends_with(path, ext_mp3())
    ||| ends_with(path, ext_m4a())
    ||| ends_with(path, ext_wav())
    ||| ends_with(path, ext_flac())
}

/// Whether the last bytes of `path` are `a`, `b`, `c`, `d`.
fn ends_in4(path: &[u8], a: u8, b: u8, c: u8, d: u8) -> (r: bool)
    ensures
        r == ends_with(path@, seq![a, b, c, d]),
{
    let n = path.len();
    if n < 4 {
        return false;
    }
    let r = path[n - 4] == a && path[n - 3] == b && path[n - 2] == c && path[n - 1] == d;
    proof {
        let tail = path@.subrange(n - 4, n as int);
        let want = seq![a, b, c, d];
        if r {
            assert(tail == want);
        } else {
            assert(tail[0] == path@[n - 4] && tail[1] == path@[n - 3] && tail[2] == path@[n - 2]
                && tail[3] == path@[n - 1]);
        }
    }
    r
}

/// Whether the last bytes of `path` are `a`, `b`, `c`, `d`, `e`.
fn ends_in5(path: &[u8], a: u8, b: u8, c: u8, d: u8, e: u8) -> (r: bool)
    ensures
        r == ends_with(path@, seq![a, b, c, d, e]),
{
    let n = path.len();
    if n < 5 {
        return false;
    }
    let r = path[n - 5] == a && path[n - 4] == b && path[n - 3] == c && path[n - 2] == d && path[n
        - 1] == e;
    proof {
        let tail = path@.subrange(n - 5, n as int);
        let want = seq![a, b, c, d, e];
        if r {
            assert(tail == want);
        } else {
            assert(tail[0] == path@[n - 5] && tail[1] == path@[n - 4] && tail[2] == path@[n - 3]
                && tail[3] == path@[n - 2] && tail[4] == path@[n - 1]);
        }
    }
    r
}

/// Whether a path, given as its bytes, names an audio file.
pub fn is_music(path: &[u8]) -> (r: bool)
    ensures
        r == is_music_spec(path@),
{
    ends_in4(path, 0x2e, 0x6f, 0x67, 0x67) || ends_in4(path, 0x2e, 0x6d, 0x70, 0x33) || ends_in4(
        path,
        0x2e,
        0x6d,
        0x34,
        0x61,
    ) || ends_in4(path, 0x2e, 0x77, 0x61, 0x76) || ends_in5(path, 0x2e, 0x66, 0x6c, 0x61, 0x63)
}

} // verus!
