//! The full-screen point picker: how it ends, and which part of the screen
//! its magnifier shows.
use vstd::prelude::*;
use crate::input::VirtualScreen;

verus! {

/// The side, in physical pixels, of the square that the magnifier captures
/// (its 210-point view at threefold zoom).
pub const MAGNIFIER_SOURCE: i32 = 70;

/// What a frame of the picker ends with.
#[derive(Clone, Copy, PartialEq, Eq, Debug)]
pub enum PickerOutcome {
    /// Escape or a closed window: no point is picked.
    Cancel,
    /// A left click: the point under the cursor is picked.
    Confirm((i32, i32)),
    /// Neither: the picker stays open.
    Continue,
}

/// How a frame of the picker ends: cancelling takes precedence over
/// confirming; a confirmed point is the cursor's physical position.
pub open spec fn outcome_spec(escape: bool, close_requested: bool, pressed: bool, cursor: (i32, i32)) -> PickerOutcome {
    if escape || close_requested {
        PickerOutcome::Cancel
    } else if pressed {
        PickerOutcome::Confirm(cursor)
    } else {
        PickerOutcome::Continue
    }
}

/// How a frame of the picker ends, given the frame's input and the
/// cursor's physical position.
pub fn picker_outcome(escape: bool, close_requested: bool, pressed: bool, cursor: (i32, i32)) -> (o: PickerOutcome)
    ensures
        o == outcome_spec(escape, close_requested, pressed, cursor),
{
    if escape || close_requested {
        PickerOutcome::Cancel
    } else if pressed {
        PickerOutcome::Confirm(cursor)
    } else {
        PickerOutcome::Continue
    }
}

/// `v` limited to `lo..=hi`.
pub open spec fn clamp(v: int, lo: int, hi: int) -> int {
    if v < lo {
        lo
    } else if v > hi {
        hi
    } else {
        v
    }
}

/// Whether the magnifier can show the cursor's surroundings: the cursor is
/// on the virtual screen and the screen is at least as large as the
/// magnifier's square.
pub open spec fn magnifier_shown(mx: i32, my: i32, vs: VirtualScreen) -> bool {
    &&& vs.x <= mx < vs.x + vs.w
    &&& vs.y <= my < vs.y + vs.h
    &&& vs.w >= MAGNIFIER_SOURCE
    &&& vs.h >= MAGNIFIER_SOURCE
}

fn clamp_i64(v: i64, lo: i64, hi: i64) -> (r: i64)
    requires
        lo <= hi,
    ensures
        r == clamp(v as int, lo as int, hi as int),
{
    if v < lo {
        lo
    } else if v > hi {
        hi
    } else {
        v
    }
}

/// The top-left corner of the square that the magnifier captures: centred
/// on the cursor and moved inside the virtual screen. None where the
/// magnifier is not shown. The edges are computed without overflow.
pub fn magnifier_source(mx: i32, my: i32, vs: VirtualScreen) -> (r: Option<(i32, i32)>)
    ensures
        r is Some <==> magnifier_shown(mx, my, vs),
        r matches Some(p) ==> {
            &&& p.0 == clamp(mx - MAGNIFIER_SOURCE / 2, vs.x as int, vs.x + vs.w - MAGNIFIER_SOURCE)
            &&& p.1 == clamp(my - MAGNIFIER_SOURCE / 2, vs.y as int, vs.y + vs.h - MAGNIFIER_SOURCE)
        },
{
    let half = (MAGNIFIER_SOURCE / 2) as i64;
    let size = MAGNIFIER_SOURCE as i64;
    let (x, y, vx, vy) = (mx as i64, my as i64, vs.x as i64, vs.y as i64);
    let (right, bottom) = (vx + vs.w as i64, vy + vs.h as i64);
    let in_screen = x >= vx && y >= vy && x < right && y < bottom;
    if in_screen && vs.w >= MAGNIFIER_SOURCE && vs.h >= MAGNIFIER_SOURCE {
        let sx = clamp_i64(x - half, vx, right - size);
        let sy = clamp_i64(y - half, vy, bottom - size);
        Some((sx as i32, sy as i32))
    } else {
        None
    }
}

/// The magnifier's square lies on the virtual screen and contains the
/// cursor.
pub proof fn lemma_magnifier_covers_cursor(mx: i32, my: i32, vs: VirtualScreen)
    requires
        magnifier_shown(mx, my, vs),
    ensures
        ({
            let sx = clamp(mx - MAGNIFIER_SOURCE / 2, vs.x as int, vs.x + vs.w - MAGNIFIER_SOURCE);
            let sy = clamp(my - MAGNIFIER_SOURCE / 2, vs.y as int, vs.y + vs.h - MAGNIFIER_SOURCE);
            &&& vs.x <= sx
            &&& sx + MAGNIFIER_SOURCE <= vs.x + vs.w
            &&& sx <= mx < sx + MAGNIFIER_SOURCE
            &&& vs.y <= sy
            &&& sy + MAGNIFIER_SOURCE <= vs.y + vs.h
            &&& sy <= my < sy + MAGNIFIER_SOURCE
        }),
{
}

} // verus!
