//! The rotation angle of the quad, kept exactly in fixed point.
//!
//! The quad turns at half a turn per second. An angle is therefore counted in
//! billionths of a half turn: at that rate one nanosecond of holding a key
//! sweeps exactly one unit, and no rounding ever enters the bookkeeping.

use vstd::prelude::*;
use crate::input::InputState;

verus! {

/// Units in half a turn, that is in an angle of pi radians.
pub const UNITS_PER_HALF_TURN: i128 = 1_000_000_000;

/// An angle in billionths of a half turn. It is not reduced modulo a full
/// turn: it grows and shrinks without bound as keys are held.
#[derive(Clone, Copy, Debug, PartialEq, Eq, Structural)]
pub struct Angle {
    pub units: i128,
}

impl View for Angle {
    type V = int;

    /// The angle as a mathematical integer of units.
    open spec fn view(&self) -> int {
        self.units as int
    }
}

/// The angle, in units, that `angle` becomes when `input` is held for
/// `delta_nanos` nanoseconds: right adds the time, left takes it away, and
/// each applies whether or not the other does.
pub open spec fn swept(angle: int, input: InputState, delta_nanos: int) -> int {
    angle + (if input.right { delta_nanos } else { 0 }) - (if input.left { delta_nanos } else { 0 })
}

/// Sweeping moves the angle by the net direction of turning times the time.
pub proof fn lemma_swept_is_turn_times_time(angle: int, input: InputState, delta_nanos: int)
    ensures
        swept(angle, input, delta_nanos) == angle + input.turn() * delta_nanos,
{
    assert(1 * delta_nanos == delta_nanos);
    assert(0 * delta_nanos == 0);
    assert((-1) * delta_nanos == -delta_nanos);
}

impl Angle {
    /// Half a turn, the angle at which the loop starts.
    pub fn half_turn() -> (angle: Angle)
        ensures
            angle@ == UNITS_PER_HALF_TURN,
    {
        Angle { units: UNITS_PER_HALF_TURN }
    }

    /// Whether holding `input` for `delta_nanos` leaves the angle within what
    /// the machine integer can hold.
    pub open spec fn fits(self, input: InputState, delta_nanos: u64) -> bool {
        i128::MIN <= swept(self@, input, delta_nanos as int) <= i128::MAX
    }

    /// Decides `fits` at run time.
    pub fn can_advance(&self, input: &InputState, delta_nanos: u64) -> (ok: bool)
        ensures
            ok == self.fits(*input, delta_nanos),
    {
        let delta: i128 = delta_nanos as i128;
        if input.right && !input.left {
            self.units <= i128::MAX - delta
        } else if input.left && !input.right {
            self.units >= i128::MIN + delta
        } else {
            true
        }
    }

    /// The angle after `input` was held for `delta_nanos` nanoseconds.
    pub fn advanced(&self, input: &InputState, delta_nanos: u64) -> (next: Angle)
        requires
            self.fits(*input, delta_nanos),
        ensures
            next@ == swept(self@, *input, delta_nanos as int),
    {
        let delta: i128 = delta_nanos as i128;
        if input.right && !input.left {
            Angle { units: self.units + delta }
        } else if input.left && !input.right {
            Angle { units: self.units - delta }
        } else {
            Angle { units: self.units }
        }
    }
}

} // verus!
