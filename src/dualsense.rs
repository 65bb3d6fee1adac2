//! DualSense USB input reports: button state, the first touch point, and
//! horizontal swipes on the touch pad.
use crate::input::{Action, PadButton};
use vstd::prelude::*;

verus! {

pub const REPORT_ID_USB: u8 = 1;

pub const TOUCHPOINT0_OFFSET: usize = 33;

pub const BUTTONS0_OFFSET: usize = 8;

pub const BUTTONS1_OFFSET: usize = 9;

pub const BUTTONS2_OFFSET: usize = 10;

/// Minimum horizontal travel of a swipe, in touch-pad units.
pub const SWIPE_MIN_DISTANCE: i32 = 220;

/// Longest touch that still counts as a swipe, in milliseconds.
pub const SWIPE_MAX_DURATION_MS: u64 = 700;

/// Quiet time after a swipe before the next one counts, in milliseconds.
pub const SWIPE_COOLDOWN_MS: u64 = 280;

/// The buttons a DualSense report carries.
#[derive(Debug, Clone, Copy, PartialEq, Eq, Structural)]
pub struct DualsenseButtons {
    pub dpad_up: bool,
    pub dpad_down: bool,
    pub dpad_left: bool,
    pub dpad_right: bool,
    pub square: bool,
    pub cross: bool,
    pub circle: bool,
    pub triangle: bool,
    pub l1: bool,
    pub r1: bool,
    pub l2: bool,
    pub r2: bool,
    pub share: bool,
    pub options: bool,
}

/// The first touch point of a report.
#[derive(Debug, Clone, Copy, PartialEq, Eq, Structural)]
pub struct TouchSample {
    pub active: bool,
    pub x: u16,
}

/// The d-pad nibble as (up, right, down, left); 8 and above mean released.
pub open spec fn dpad_of(dpad: u8) -> (bool, bool, bool, bool) {
    if dpad == 0 {
        (true, false, false, false)
    } else if dpad == 1 {
        (true, true, false, false)
    } else if dpad == 2 {
        (false, true, false, false)
    } else if dpad == 3 {
        (false, true, true, false)
    } else if dpad == 4 {
        (false, false, true, false)
    } else if dpad == 5 {
        (false, false, true, true)
    } else if dpad == 6 {
        (false, false, false, true)
    } else if dpad == 7 {
        (true, false, false, true)
    } else {
        (false, false, false, false)
    }
}

pub open spec fn buttons_of(b0: u8, b1: u8) -> DualsenseButtons {
    let (up, right, down, left) = dpad_of(b0 & 0x0f);
    DualsenseButtons {
        dpad_up: up,
        dpad_down: down,
        dpad_left: left,
        dpad_right: right,
        square: (b0 & 0x10) != 0,
        cross: (b0 & 0x20) != 0,
        circle: (b0 & 0x40) != 0,
        triangle: (b0 & 0x80) != 0,
        l1: (b1 & 0x01) != 0,
        r1: (b1 & 0x02) != 0,
        l2: (b1 & 0x04) != 0,
        r2: (b1 & 0x08) != 0,
        share: (b1 & 0x10) != 0,
        options: (b1 & 0x20) != 0,
    }
}

fn dpad(nibble: u8) -> (r: (bool, bool, bool, bool))
    ensures
        r == dpad_of(nibble),
{
    match nibble {
        0 => (true, false, false, false),
        1 => (true, true, false, false),
        2 => (false, true, false, false),
        3 => (false, true, true, false),
        4 => (false, false, true, false),
        5 => (false, false, true, true),
        6 => (false, false, false, true),
        7 => (true, false, false, true),
        _ => (false, false, false, false),
    }
}

/// The buttons of a USB input report; none for another report kind or a
/// report too short to hold them.
pub fn parse_button_state(report: &[u8]) -> (r: Option<DualsenseButtons>)
    ensures
        r == if report@.len() == 0 || report@[0] != REPORT_ID_USB || report@.len() <= BUTTONS2_OFFSET {
            None
        } else {
            Some(buttons_of(report@[BUTTONS0_OFFSET as int], report@[BUTTONS1_OFFSET as int]))
        },
{
    if report.len() == 0 || report[0] != REPORT_ID_USB {
        return None;
    }
    if report.len() <= BUTTONS2_OFFSET {
        return None;
    }
    let buttons0 = report[BUTTONS0_OFFSET];
    let buttons1 = report[BUTTONS1_OFFSET];
    let (dpad_up, dpad_right, dpad_down, dpad_left) = dpad(buttons0 & 0x0f);
    Some(
        DualsenseButtons {
            dpad_up,
            dpad_down,
            dpad_left,
            dpad_right,
            square: (buttons0 & 0x10) != 0,
            cross: (buttons0 & 0x20) != 0,
            circle: (buttons0 & 0x40) != 0,
            triangle: (buttons0 & 0x80) != 0,
            l1: (buttons1 & 0x01) != 0,
            r1: (buttons1 & 0x02) != 0,
            l2: (buttons1 & 0x04) != 0,
            r2: (buttons1 & 0x08) != 0,
            share: (buttons1 & 0x10) != 0,
            options: (buttons1 & 0x20) != 0,
        },
    )
}

/// The first touch point of a USB input report: active while the contact
/// byte's top bit is clear; x is 12 bits, low byte first, then the low
/// nibble of the next byte.
pub fn parse_touch_sample(report: &[u8]) -> (r: Option<TouchSample>)
    ensures
        r == if report@.len() == 0 || report@[0] != REPORT_ID_USB || report@.len()
            <= TOUCHPOINT0_OFFSET + 3 {
            None
        } else {
            Some(
                TouchSample {
                    active: (report@[TOUCHPOINT0_OFFSET as int] & 0x80) == 0,
                    x: (((report@[TOUCHPOINT0_OFFSET + 2] & 0x0f) as u16) << 8u16) | report@[TOUCHPOINT0_OFFSET + 1] as u16,
                },
            )
        },
{
    if report.len() == 0 || report[0] != REPORT_ID_USB {
        return None;
    }
    if report.len() <= TOUCHPOINT0_OFFSET + 3 {
        return None;
    }
    let contact = report[TOUCHPOINT0_OFFSET];
    let active = (contact & 0x80) == 0;
    let x_lo = report[TOUCHPOINT0_OFFSET + 1];
    let x_hi_y_lo = report[TOUCHPOINT0_OFFSET + 2];
    let x = (((x_hi_y_lo & 0x0f) as u16) << 8u16) | x_lo as u16;
    Some(TouchSample { active, x })
}

/// One entry per button, in report order: the pad button it stands for and
/// its state before and after.
pub open spec fn button_table(prev: DualsenseButtons, next: DualsenseButtons) -> Seq<(PadButton, bool, bool)> {
    seq![
        (PadButton::DPadUp, prev.dpad_up, next.dpad_up),
        (PadButton::DPadDown, prev.dpad_down, next.dpad_down),
        (PadButton::DPadLeft, prev.dpad_left, next.dpad_left),
        (PadButton::DPadRight, prev.dpad_right, next.dpad_right),
        (PadButton::West, prev.square, next.square),
        (PadButton::South, prev.cross, next.cross),
        (PadButton::East, prev.circle, next.circle),
        (PadButton::North, prev.triangle, next.triangle),
        (PadButton::LeftTrigger, prev.l1, next.l1),
        (PadButton::RightTrigger, prev.r1, next.r1),
        (PadButton::LeftTrigger2, prev.l2, next.l2),
        (PadButton::RightTrigger2, prev.r2, next.r2),
        (PadButton::Select, prev.share, next.share),
        (PadButton::Start, prev.options, next.options),
    ]
}

/// The entries of `t` whose state changed, as (button, new state).
pub open spec fn changed(t: Seq<(PadButton, bool, bool)>) -> Seq<(PadButton, bool)>
    decreases t.len(),
{
    if t.len() == 0 {
        Seq::empty()
    } else if t.last().1 != t.last().2 {
        changed(t.drop_last()).push((t.last().0, t.last().2))
    } else {
        changed(t.drop_last())
    }
}

/// The button events between two reports, in report order: each button whose
/// state differs, with its new state.
pub fn button_changes(prev: DualsenseButtons, next: DualsenseButtons) -> (r: Vec<(PadButton, bool)>)
    ensures
        r@ == changed(button_table(prev, next)),
{
    let table: Vec<(PadButton, bool, bool)> = vec![
        (PadButton::DPadUp, prev.dpad_up, next.dpad_up),
        (PadButton::DPadDown, prev.dpad_down, next.dpad_down),
        (PadButton::DPadLeft, prev.dpad_left, next.dpad_left),
        (PadButton::DPadRight, prev.dpad_right, next.dpad_right),
        (PadButton::West, prev.square, next.square),
        (PadButton::South, prev.cross, next.cross),
        (PadButton::East, prev.circle, next.circle),
        (PadButton::North, prev.triangle, next.triangle),
        (PadButton::LeftTrigger, prev.l1, next.l1),
        (PadButton::RightTrigger, prev.r1, next.r1),
        (PadButton::LeftTrigger2, prev.l2, next.l2),
        (PadButton::RightTrigger2, prev.r2, next.r2),
        (PadButton::Select, prev.share, next.share),
        (PadButton::Start, prev.options, next.options),
    ];
    assert(table@ =~= button_table(prev, next));
    let mut out: Vec<(PadButton, bool)> = Vec::new();
    let mut i: usize = 0;
    while i < table.len()
        invariant
            i <= table@.len(),
            out@ == changed(table@.subrange(0, i as int)),
        decreases table@.len() - i,
    {
        assert(table@.subrange(0, i + 1).drop_last() =~= table@.subrange(0, i as int));
        let (button, before, after) = table[i];
        if before != after {
            out.push((button, after));
        }
        i = i + 1;
    }
    assert(table@.subrange(0, table@.len() as int) =~= table@);
    out
}

/// Tracks one touch on the pad to recognise quick horizontal swipes. Times
/// are milliseconds on a monotonic clock.
#[derive(Debug, Clone, Copy, PartialEq, Eq, Structural)]
pub struct SwipeDetector {
    pub active: bool,
    pub start_x: u16,
    pub last_x: u16,
    pub start_time: u64,
    pub last_swipe: Option<u64>,
}

pub open spec fn elapsed(now: u64, since: u64) -> int {
    if now >= since {
        now - since
    } else {
        0
    }
}

/// The detector after `sample` arrives at `now`, and the action recognised.
/// A touch begins or moves while the sample is active; when it ends, it is a
/// swipe if it lasted at most the maximum duration, came after the cooldown,
/// and travelled at least the minimum distance: leftwards means next item,
/// rightwards previous.
pub open spec fn swipe_step(d: SwipeDetector, sample: TouchSample, now: u64) -> (SwipeDetector, Option<Action>) {
    if sample.active {
        if !d.active {
            (SwipeDetector { active: true, start_x: sample.x, last_x: sample.x, start_time: now, ..d }, None)
        } else {
            (SwipeDetector { last_x: sample.x, ..d }, None)
        }
    } else if !d.active {
        (d, None)
    } else {
        let ended = SwipeDetector { active: false, ..d };
        let dx = d.last_x as int - d.start_x as int;
        if elapsed(now, d.start_time) > SWIPE_MAX_DURATION_MS {
            (ended, None)
        } else if d.last_swipe is Some && elapsed(now, d.last_swipe->0) < SWIPE_COOLDOWN_MS {
            (ended, None)
        } else if dx >= SWIPE_MIN_DISTANCE || -dx >= SWIPE_MIN_DISTANCE {
            (SwipeDetector { last_swipe: Some(now), ..ended }, if dx < 0 {
                Some(Action::NextItem)
            } else {
                Some(Action::PrevItem)
            })
        } else {
            (ended, None)
        }
    }
}

impl SwipeDetector {
    /// No touch in progress and no swipe yet.
    pub fn new() -> (r: SwipeDetector)
        ensures
            r == (SwipeDetector { active: false, start_x: 0, last_x: 0, start_time: 0, last_swipe: None }),
    {
        SwipeDetector { active: false, start_x: 0, last_x: 0, start_time: 0, last_swipe: None }
    }

    /// Feeds one touch sample taken at `now` (see `swipe_step`).
    pub fn update(&mut self, sample: TouchSample, now: u64) -> (r: Option<Action>)
        ensures
            (*final(self), r) == swipe_step(*old(self), sample, now),
    {
        if sample.active {
            if !self.active {
                self.active = true;
                self.start_x = sample.x;
                self.last_x = sample.x;
                self.start_time = now;
            } else {
                self.last_x = sample.x;
            }
            return None;
        }
        if self.active {
            self.active = false;
            let dt = if now >= self.start_time {
                now - self.start_time
            } else {
                0
            };
            if dt > SWIPE_MAX_DURATION_MS {
                return None;
            }
            match self.last_swipe {
                Some(t) => {
                    let since = if now >= t {
                        now - t
                    } else {
                        0
                    };
                    if since < SWIPE_COOLDOWN_MS {
                        return None;
                    }
                },
                None => {},
            }
            let dx = self.last_x as i32 - self.start_x as i32;
            if dx >= SWIPE_MIN_DISTANCE || -dx >= SWIPE_MIN_DISTANCE {
                self.last_swipe = Some(now);
                if dx < 0 {
                    return Some(Action::NextItem);
                } else {
                    return Some(Action::PrevItem);
                }
            }
        }
        None
    }
}

} // verus!
