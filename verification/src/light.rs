use vstd::prelude::*;

verus! {

/// An angle as a fraction of a half turn: `num / den` of the angle π. The
/// denominator is positive.
#[derive(Clone, Copy, Debug, PartialEq, Eq, Structural)]
pub struct HalfTurns {
    pub num: i32,
    pub den: i32,
}

/// How the light turns while time passes. Its rotation is three turns one
/// after the other, about the z, the y and the x axis: the turns about z and
/// x are fixed, the turn about y grows with every second that has elapsed.
#[derive(Clone, Copy, Debug, PartialEq, Eq, Structural)]
pub struct LightSweep {
    pub about_z: HalfTurns,
    pub about_y_per_second: HalfTurns,
    pub about_x: HalfTurns,
}

/// The viewer's sweep: no turn about z, a fifth of a half turn about y for
/// each second, and a quarter of a half turn backwards about x.
pub open spec fn viewer_sweep() -> LightSweep {
    LightSweep {
        about_z: HalfTurns { num: 0, den: 1 },
        about_y_per_second: HalfTurns { num: 1, den: 5 },
        about_x: HalfTurns { num: -1i32, den: 4 },
    }
}

/// The turn about y after `seconds` whole seconds, as the numerator of a
/// fraction of a half turn over the denominator of `sweep.about_y_per_second`.
pub open spec fn turn_about_y(sweep: LightSweep, seconds: nat) -> int {
    sweep.about_y_per_second.num * seconds
}

/// The viewer's light stands as at the start when no time has elapsed, and
/// comes round once in ten seconds: by then it has made two half turns
/// about y, and it does so again in any ten seconds that follow.
pub proof fn lemma_viewer_sweep_period(seconds: nat)
    ensures
        viewer_sweep().about_z.den > 0,
        viewer_sweep().about_y_per_second.den > 0,
        viewer_sweep().about_x.den > 0,
        turn_about_y(viewer_sweep(), 0) == 0,
        turn_about_y(viewer_sweep(), 10) == 2 * viewer_sweep().about_y_per_second.den,
        turn_about_y(viewer_sweep(), seconds + 10) == turn_about_y(viewer_sweep(), seconds) + 2
            * viewer_sweep().about_y_per_second.den,
{
}

/// The sweep of the viewer's light.
pub fn light_sweep() -> (r: LightSweep)
    ensures
        r == viewer_sweep(),
{
    LightSweep {
        about_z: HalfTurns { num: 0, den: 1 },
        about_y_per_second: HalfTurns { num: 1, den: 5 },
        about_x: HalfTurns { num: -1, den: 4 },
    }
}

} // verus!
