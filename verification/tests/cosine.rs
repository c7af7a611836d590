use lr_schedule::{Angle, ConfigError, CosineAnnealing};
use std::f64::consts::PI;

fn value(angle: Angle, base_lr: f64, eta_min: f64) -> f64 {
    eta_min + (base_lr - eta_min) * (1. + (PI * angle.num as f64 / angle.den as f64).cos()) / 2.
}

#[test]
fn cosine_annealing_test() {
    let mut scheduler = CosineAnnealing::new(10).unwrap();

    scheduler.step();

    assert_eq!(value(scheduler.get_lr(), 1e-3, 1e-6), 0.0009755527298894294);
}

#[test]
fn cosine_annealing_mid_test() {
    let mut scheduler = CosineAnnealing::new(10).unwrap();

    for _i in 0..=5 {
        scheduler.step();
        println!("{}", value(scheduler.get_lr(), 1e-3, 1e-6));
    }

    assert_eq!(value(scheduler.get_lr(), 1e-3, 1e-6), 0.0003461460113097139);
}

#[test]
fn cosine_annealing_end_test() {
    let mut scheduler = CosineAnnealing::new(10).unwrap();

    for _i in 0..=10 {
        scheduler.step();
    }

    assert_eq!(value(scheduler.get_lr(), 1e-3, 1e-6), 2.5447270110570702e-5);
}

#[test]
fn cosine_starts_at_angle_zero() {
    let scheduler = CosineAnnealing::new(10).unwrap();
    assert_eq!(scheduler.step_num(), 0);
    assert_eq!(scheduler.get_lr(), Angle { num: 0, den: 10 });
    assert!((value(scheduler.get_lr(), 1e-3, 1e-6) - 1e-3).abs() < 1e-15);
}

#[test]
fn cosine_step_returns_the_new_angle() {
    let mut scheduler = CosineAnnealing::new(7).unwrap();
    assert_eq!(scheduler.step(), Angle { num: 1, den: 7 });
    assert_eq!(scheduler.step(), Angle { num: 2, den: 7 });
    assert_eq!(scheduler.get_lr(), Angle { num: 2, den: 7 });
    assert_eq!(scheduler.step_num(), 2);
}

#[test]
fn cosine_reaches_the_floor_at_max_step() {
    let mut scheduler = CosineAnnealing::new(10).unwrap();
    for _i in 0..10 {
        scheduler.step();
    }
    assert_eq!(scheduler.get_lr(), Angle { num: 10, den: 10 });
    assert_eq!(value(scheduler.get_lr(), 1e-3, 1e-6), 1e-6);
}

#[test]
fn cosine_keeps_going_past_max_step() {
    let mut scheduler = CosineAnnealing::new(10).unwrap();
    for _i in 0..25 {
        scheduler.step();
    }
    assert_eq!(scheduler.get_lr(), Angle { num: 25, den: 10 });
}

#[test]
fn cosine_repeats_every_two_max_steps() {
    let max_step = 10;
    let mut early = CosineAnnealing::new(max_step).unwrap();
    let mut late = CosineAnnealing::new(max_step).unwrap();
    for _i in 0..2 * max_step {
        late.step();
    }
    for _i in 0..30 {
        let a = early.step();
        let b = late.step();
        assert_eq!(b.num, a.num + 2 * max_step);
        assert_eq!(a.den, b.den);
        assert_eq!(a.num % (2 * a.den), b.num % (2 * b.den));
        assert!((value(a, 1e-3, 1e-6) - value(b, 1e-3, 1e-6)).abs() < 1e-12);
    }
}

#[test]
fn cosine_refuses_zero_max_step() {
    assert_eq!(CosineAnnealing::new(0).err(), Some(ConfigError::ZeroSteps));
    assert!(CosineAnnealing::new(1).is_ok());
}
