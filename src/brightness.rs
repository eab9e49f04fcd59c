//! Brightness values and the screen state derived from them.
use vstd::prelude::*;

verus! {

/// Smallest brightness the control node accepts.
pub const MIN_BRIGHTNESS: i16 = 0;

/// Largest brightness the control node accepts.
pub const MAX_BRIGHTNESS: i16 = 255;

/// Power state of the screen, derived from the brightness value alone.
#[derive(Clone, Copy, Debug, PartialEq, Eq, Structural)]
pub enum ScreenState {
    On,
    Off,
    Dim,
}

/// Whether `v` is a value the control node accepts.
pub open spec fn in_range(v: int) -> bool {
    MIN_BRIGHTNESS <= v <= MAX_BRIGHTNESS
}

/// The state a brightness value stands for: 0 is off, 1 is dim, anything else is on.
pub open spec fn state_of(brightness: int) -> ScreenState {
    if brightness == 0 {
        ScreenState::Off
    } else if brightness == 1 {
        ScreenState::Dim
    } else {
        ScreenState::On
    }
}

/// The brightness that stepping `current` by `delta` writes, if any.
pub open spec fn stepped(current: int, delta: int) -> Option<i16> {
    if in_range(current + delta) { Some((current + delta) as i16) } else { None }
}

/// The screen state for the current brightness.
pub fn screen_state(current: i16) -> (r: ScreenState)
    ensures
        r == state_of(current as int),
        (r == ScreenState::Off) <==> current == 0,
        (r == ScreenState::Dim) <==> current == 1,
        (r == ScreenState::On) <==> (current != 0 && current != 1),
{
    match current {
        0 => ScreenState::Off,
        1 => ScreenState::Dim,
        _ => ScreenState::On,
    }
}

/// The brightness to write when stepping `current` by `delta`: `Some(current + delta)`
/// when that sum lies in `[0, 255]`, and `None` (nothing is written) otherwise.
pub fn increment_brightness(current: i16, delta: i16) -> (r: Option<i16>)
    ensures
        r == stepped(current as int, delta as int),
        in_range(current + delta) ==> r == Some((current + delta) as i16),
        !in_range(current + delta) ==> r.is_none(),
{
    let next: i32 = current as i32 + delta as i32;
    if MIN_BRIGHTNESS as i32 <= next && next <= MAX_BRIGHTNESS as i32 {
        Some(next as i16)
    } else {
        None
    }
}

} // verus!
