use vstd::prelude::*;
use vstd::string::*;

verus! {

/// 100-nanosecond ticks in one millisecond.
pub const TICKS_PER_MILLI: i64 = 10_000;

/// Playback state of a media session.
#[derive(PartialEq, Eq, Structural, Clone, Copy, Debug)]
pub enum PlaybackStatus {
    Closed,
    Opened,
    Changing,
    Stopped,
    Playing,
    Paused,
}

/// Whole milliseconds in `t` ticks, truncated toward zero.
pub open spec fn millis_of(t: int) -> int {
    if t >= 0 {
        t / 10_000
    } else {
        -((-t) / 10_000)
    }
}

/// Converts 100-nanosecond ticks to whole milliseconds, truncating toward
/// zero (never rounding).
pub fn ticks_to_millis(ticks: i64) -> (r: i64)
    ensures
        r == millis_of(ticks as int),
{
    if ticks >= 0 {
        ticks / TICKS_PER_MILLI
    } else {
        let up: i64 = -(ticks + 1);
        let q: i64 = up / TICKS_PER_MILLI;
        let rem: i64 = up % TICKS_PER_MILLI;
        proof {
            assert(-(ticks as int) == up + 1);
            assert(up == q * 10_000 + rem) by (nonlinear_arith)
                requires q == up / 10_000, rem == up % 10_000, up >= 0;
        }
        if rem == TICKS_PER_MILLI - 1 {
            assert((up + 1) / 10_000 == q + 1) by (nonlinear_arith)
                requires up == q * 10_000 + 9_999, q >= 0;
            -(q + 1)
        } else {
            assert((up + 1) / 10_000 == q) by (nonlinear_arith)
                requires up == q * 10_000 + rem, 0 <= rem < 9_999, q >= 0;
            -q
        }
    }
}

/// A time value for the boundary: the converted milliseconds where the
/// timeline was read, 0 where no session was found or the read failed.
pub fn millis_or_zero(ticks: Option<i64>) -> (r: i64)
    ensures
        r == match ticks {
            Some(t) => millis_of(t as int),
            None => 0,
        },
{
    match ticks {
        Some(t) => ticks_to_millis(t),
        None => 0,
    }
}

/// The playing flag for the boundary: 1 only while the status is `Playing`;
/// any other status, no session or a failed read give 0.
pub fn playing_flag(status: Option<PlaybackStatus>) -> (r: i32)
    ensures
        r == (if status == Some(PlaybackStatus::Playing) { 1i32 } else { 0i32 }),
{
    match status {
        Some(PlaybackStatus::Playing) => 1,
        _ => 0,
    }
}

/// The availability flag for the boundary: 1 where a session was found, 0
/// where none was or the lookup failed.
pub fn availability_flag<H, E>(found: &Result<Option<H>, E>) -> (r: i32)
    ensures
        r == (if found matches Ok(Some(_)) { 1i32 } else { 0i32 }),
{
    match found {
        Ok(Some(_)) => 1,
        _ => 0,
    }
}

/// Whether `s` contains the NUL character, which a C string cannot hold.
pub fn contains_nul(s: &str) -> (r: bool)
    ensures
        r == s@.contains('\0'),
{
    let n = s.unicode_len();
    let mut i: usize = 0;
    while i < n
        invariant
            i <= n,
            n == s@.len(),
            forall|j: int| 0 <= j < i ==> s@[j] != '\0',
        decreases n - i,
    {
        if s.get_char(i) == '\0' {
            return true;
        }
        i = i + 1;
    }
    false
}

/// The text handed across the boundary for a property read: the text itself,
/// or the empty string where no session was found, the read failed, or the
/// text holds a NUL character.
pub open spec fn boundary_text_of(t: Option<Seq<char>>) -> Seq<char> {
    match t {
        Some(s) => if s.contains('\0') {
            Seq::empty()
        } else {
            s
        },
        None => Seq::empty(),
    }
}

/// Text for the boundary: absent or unrepresentable text becomes the empty
/// string rather than a failure.
pub fn boundary_text(text: Option<String>) -> (r: String)
    ensures
        r@ == boundary_text_of(
            match text {
                Some(s) => Some(s@),
                None => None,
            },
        ),
{
    match text {
        Some(s) => {
            if contains_nul(s.as_str()) {
                String::new()
            } else {
                s
            }
        },
        None => String::new(),
    }
}

/// How many bytes of a cover-art stream of `size` bytes to load in one read:
/// none (a failure) for an empty stream or one longer than a single read can
/// take, else all of it.
pub fn cover_art_read_len(size: u64) -> (r: Option<u32>)
    ensures
        r == (if 0 < size <= u32::MAX { Some(size as u32) } else { None::<u32> }),
{
    if size == 0 || size > u32::MAX as u64 {
        None
    } else {
        Some(size as u32)
    }
}

} // verus!
