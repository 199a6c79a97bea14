//! The per-frame angle accumulation.
//!
//! The driver advances two rotation angles once per frame, by one hundredth
//! of a radian around the X axis and three hundredths around the Y axis.
//! Both grow without bound and are never clamped or wrapped; the library
//! carries them exactly, in hundredths of a radian.

use vstd::prelude::*;

verus! {

/// How many hundredths of a radian the X angle gains per frame.
pub const X_STEP_CENTIRAD: u64 = 1;

/// How many hundredths of a radian the Y angle gains per frame.
pub const Y_STEP_CENTIRAD: u64 = 3;

/// The two rotation angles, in hundredths of a radian.
#[derive(Clone, Copy, Debug, PartialEq, Eq, Structural)]
pub struct Angles {
    pub x_centirad: u64,
    pub y_centirad: u64,
}

impl Angles {
    /// Both angles start at zero.
    pub fn start() -> (a: Angles)
        ensures
            a.x_centirad == 0,
            a.y_centirad == 0,
    {
        Angles { x_centirad: 0, y_centirad: 0 }
    }

    /// Advances both angles by one frame's fixed deltas.
    pub fn advance(&mut self)
        requires
            old(self).x_centirad + X_STEP_CENTIRAD <= u64::MAX,
            old(self).y_centirad + Y_STEP_CENTIRAD <= u64::MAX,
        ensures
            final(self).x_centirad == old(self).x_centirad + X_STEP_CENTIRAD,
            final(self).y_centirad == old(self).y_centirad + Y_STEP_CENTIRAD,
    {
        self.x_centirad = self.x_centirad + X_STEP_CENTIRAD;
        self.y_centirad = self.y_centirad + Y_STEP_CENTIRAD;
    }
}

/// The angle pair after a number of frames from a zero start, as the
/// per-frame advance produces it.
pub open spec fn spec_angles_after(n: nat) -> (int, int)
    decreases n,
{
    if n == 0 {
        (0int, 0int)
    } else {
        let p = spec_angles_after((n - 1) as nat);
        (p.0 + X_STEP_CENTIRAD, p.1 + Y_STEP_CENTIRAD)
    }
}

/// Angle accumulation is linear: after `n` frames from zero, the X angle is
/// `n` hundredths of a radian and the Y angle three times that.
pub proof fn lemma_angle_accumulation(n: nat)
    ensures
        spec_angles_after(n).0 == n,
        spec_angles_after(n).1 == 3 * n,
    decreases n,
{
    if n > 0 {
        lemma_angle_accumulation((n - 1) as nat);
    }
}

} // verus!
