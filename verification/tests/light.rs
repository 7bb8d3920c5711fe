use mower::light::{light_sweep, HalfTurns, LightSweep};
use std::f32::consts::{FRAC_PI_4, PI};

fn radians(scale: f32, angle: HalfTurns) -> f32 {
    scale * PI * angle.num as f32 / angle.den as f32
}

#[test]
fn sweep_of_the_light() {
    assert_eq!(
        light_sweep(),
        LightSweep {
            about_z: HalfTurns { num: 0, den: 1 },
            about_y_per_second: HalfTurns { num: 1, den: 5 },
            about_x: HalfTurns { num: -1, den: 4 },
        }
    );
}

#[test]
fn denominators_are_positive() {
    let sweep = light_sweep();
    assert!(sweep.about_z.den > 0);
    assert!(sweep.about_y_per_second.den > 0);
    assert!(sweep.about_x.den > 0);
}

#[test]
fn light_comes_round_in_ten_seconds() {
    let rate = light_sweep().about_y_per_second;
    assert_eq!(rate.num * 10, 2 * rate.den);
    assert_eq!(rate.num * 0, 0);
}

#[test]
fn fixed_turns_in_radians() {
    let sweep = light_sweep();
    assert_eq!(radians(1.0, sweep.about_z), 0.0);
    assert_eq!(radians(1.0, sweep.about_x), -FRAC_PI_4);
}

#[test]
fn turn_about_y_in_radians() {
    let rate = light_sweep().about_y_per_second;
    let mut elapsed: f32 = 0.0;
    while elapsed < 120.0 {
        assert_eq!(radians(elapsed, rate), elapsed * PI / 5.0);
        elapsed += 0.0173;
    }
    assert_eq!(radians(0.0, rate), 0.0);
    assert_eq!(radians(5.0, rate), PI);
    assert_eq!(radians(10.0, rate), 2.0 * PI);
}
