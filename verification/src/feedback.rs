//! Transient feedback: how long a status message lives, which frame of the
//! loading animation shows, and which repeated key presses are dropped.
//! Times are milliseconds on a clock that never runs backwards.

use vstd::prelude::*;
use crate::key::KeyCode;

verus! {

/// How long a status message stays, in milliseconds.
pub const STATUS_TTL_MS: u64 = 2000;

/// The window after an accepted navigation key in which a repeat of the
/// same key is dropped, in milliseconds.
pub const DEBOUNCE_MS: u64 = 50;

/// How long each frame of the loading animation shows, in milliseconds.
pub const SPINNER_FRAME_MS: u64 = 80;

/// The number of frames of the loading animation.
pub const SPINNER_FRAMES: u64 = 10;

/// The time that has passed since `since`; none if the clock reads earlier.
pub open spec fn elapsed(since: u64, now: u64) -> nat {
    if now >= since {
        (now - since) as nat
    } else {
        0
    }
}

/// A status message set at `since` has outlived its time at `now`.
pub open spec fn expired(since: u64, now: u64) -> bool {
    elapsed(since, now) >= STATUS_TTL_MS
}

/// A navigation key pressed at `now` repeats the last accepted one within
/// the debounce window, and is dropped.
pub open spec fn debounced(last: Option<(KeyCode, u64)>, code: KeyCode, now: u64) -> bool {
    match last {
        Some((last_code, last_time)) => last_code == code && elapsed(last_time, now) < DEBOUNCE_MS,
        None => false,
    }
}

/// The frame of the loading animation after `age` milliseconds.
pub open spec fn spinner_frame(age: nat) -> nat {
    (age / SPINNER_FRAME_MS as nat) % SPINNER_FRAMES as nat
}

/// The glyph of a frame of the loading animation: a braille pattern whose
/// dots turn around the cell.
pub open spec fn spinner_glyph(frame: nat) -> char {
    if frame == 0 {
        '\u{280b}'
    } else if frame == 1 {
        '\u{2819}'
    } else if frame == 2 {
        '\u{2839}'
    } else if frame == 3 {
        '\u{2838}'
    } else if frame == 4 {
        '\u{283c}'
    } else if frame == 5 {
        '\u{2834}'
    } else if frame == 6 {
        '\u{2826}'
    } else if frame == 7 {
        '\u{2827}'
    } else if frame == 8 {
        '\u{2807}'
    } else {
        '\u{280f}'
    }
}

/// What the loading indicator shows at `now`: a blank while nothing loads,
/// else the frame that the time since the start selects.
pub open spec fn spinner_at(start: Option<u64>, now: u64) -> char {
    match start {
        Some(since) => spinner_glyph(spinner_frame(elapsed(since, now))),
        None => ' ',
    }
}

/// The time that has passed since `since`.
pub fn elapsed_ms(since: u64, now: u64) -> (age: u64)
    ensures
        age == elapsed(since, now),
{
    if now >= since {
        now - since
    } else {
        0
    }
}

/// Whether a status message set at `since` is due to be cleared at `now`.
pub fn is_expired(since: u64, now: u64) -> (b: bool)
    ensures
        b == expired(since, now),
{
    elapsed_ms(since, now) >= STATUS_TTL_MS
}

/// Whether a navigation key pressed at `now` is dropped as a repeat.
pub fn is_debounced(last: Option<(KeyCode, u64)>, code: KeyCode, now: u64) -> (b: bool)
    ensures
        b == debounced(last, code, now),
{
    match last {
        Some((last_code, last_time)) => last_code == code && elapsed_ms(last_time, now)
            < DEBOUNCE_MS,
        None => false,
    }
}

/// The glyph that the loading indicator shows at `now`.
pub fn spinner_char(start: Option<u64>, now: u64) -> (c: char)
    ensures
        c == spinner_at(start, now),
{
    match start {
        None => ' ',
        Some(since) => {
            let frame = (elapsed_ms(since, now) / SPINNER_FRAME_MS) % SPINNER_FRAMES;
            if frame == 0 {
                '\u{280b}'
            } else if frame == 1 {
                '\u{2819}'
            } else if frame == 2 {
                '\u{2839}'
            } else if frame == 3 {
                '\u{2838}'
            } else if frame == 4 {
                '\u{283c}'
            } else if frame == 5 {
                '\u{2834}'
            } else if frame == 6 {
                '\u{2826}'
            } else if frame == 7 {
                '\u{2827}'
            } else if frame == 8 {
                '\u{2807}'
            } else {
                '\u{280f}'
            }
        },
    }
}

/// A status message lives for less than its time to live and no longer: set
/// at `since`, it is kept at every earlier reading of the clock and cleared
/// at every later one.
pub proof fn lemma_status_lifetime(since: u64, now: u64)
    requires
        since <= now,
    ensures
        now - since < STATUS_TTL_MS ==> !expired(since, now),
        now - since >= STATUS_TTL_MS ==> expired(since, now),
{
}

/// A repeat of the accepted key is dropped inside the debounce window and
/// accepted from its end on; another key is never dropped.
pub proof fn lemma_debounce_window(code: KeyCode, other: KeyCode, accepted: u64, now: u64)
    requires
        accepted <= now,
    ensures
        now - accepted < DEBOUNCE_MS ==> debounced(Some((code, accepted)), code, now),
        now - accepted >= DEBOUNCE_MS ==> !debounced(Some((code, accepted)), code, now),
        other != code ==> !debounced(Some((code, accepted)), other, now),
        !debounced(None, code, now),
{
}

/// The loading animation is periodic: a full round of frames later the same
/// glyph shows again, and within one frame's time the glyph does not change.
pub proof fn lemma_spinner_periodic(age: nat)
    ensures
        spinner_frame(age) < SPINNER_FRAMES,
        spinner_frame((age + SPINNER_FRAME_MS * SPINNER_FRAMES) as nat) == spinner_frame(age),
        spinner_frame(((age / SPINNER_FRAME_MS as nat) * SPINNER_FRAME_MS) as nat) == spinner_frame(
            age,
        ),
{
    assert((age + 800) / 80 == age / 80 + 10);
    assert(((age / 80) * 80) / 80 == age / 80);
}

} // verus!
