use parallax::camera::{
    shortest_angle, CameraFollow, LinearAxisStrategy, RotationStrategy, TranslationStrategy, PID,
};
use parallax::fixed::{Vec2, FX_MAX, FX_MIN, PI_FX, SCALE, TWO_PI_FX};
use parallax::parallax::Limit;

const DEG10: i64 = 174_533;

#[test]
fn test_shortest_angle() {
    assert_eq!(shortest_angle(0, 0), 0);
    assert_eq!(shortest_angle(PI_FX, 0), PI_FX);
    // The angle from 0 to -PI is normalized into (-PI, PI], so it comes back
    // as the positive half turn.
    assert_eq!(shortest_angle(-PI_FX, 0), PI_FX);
    assert_eq!(shortest_angle(PI_FX * 2, 0), 0);
    assert_eq!(shortest_angle(PI_FX * -2, 0), 0);

    assert_eq!(shortest_angle(DEG10, 0), DEG10);
    assert_eq!(shortest_angle(-DEG10, 0), -DEG10);
}

#[test]
fn test_shortest_angle_many_turns() {
    // Whole turns vanish for any number of turns, in either direction.
    assert_eq!(shortest_angle(DEG10 + 5 * TWO_PI_FX, 0), DEG10);
    assert_eq!(shortest_angle(DEG10 - 7 * TWO_PI_FX, 0), DEG10);
    assert_eq!(shortest_angle(3 * TWO_PI_FX, 0), 0);
    // Results always land in (-PI, PI].
    let samples: Vec<i64> = vec![0, 1, -1, PI_FX, -PI_FX, TWO_PI_FX, 123_456_789, -987_654_321];
    for a in &samples {
        for b in &samples {
            let r = shortest_angle(*a, *b);
            assert!(-PI_FX < r && r <= PI_FX);
        }
    }
}

#[test]
fn test_inactive_strategy_is_identity() {
    let mut lin = LinearAxisStrategy::Inactive;
    assert_eq!(lin.compute(16_000, 5 * SCALE, -3 * SCALE), 0);
    assert_eq!(lin.compute(0, FX_MAX, FX_MIN), 0);
    let mut rot = RotationStrategy::Inactive;
    assert_eq!(rot.rotation(16_000, PI_FX, -PI_FX), 0);
    assert_eq!(rot.rotation(0, 0, 0), 0);
}

#[test]
fn test_fixed_strategy_converges_in_one_step() {
    let mut lin = LinearAxisStrategy::Fixed;
    let target: i64 = 10 * SCALE;
    let mut current: i64 = 3 * SCALE;
    current += lin.compute(16_000, target, current);
    assert_eq!(current, target);
    // On target, repeated applications return zero and stay put.
    assert_eq!(lin.compute(16_000, target, current), 0);

    let mut rot = RotationStrategy::Fixed;
    let delta = rot.rotation(16_000, 0, 1_570_796);
    assert_eq!(delta, -1_570_796);
    assert_eq!(rot.rotation(16_000, 0, 1_570_796 + delta), 0);
}

#[test]
fn test_proportional_strategy() {
    let mut lin = LinearAxisStrategy::P(500_000);  // gain 0.5
    assert_eq!(lin.compute(16_000, 10 * SCALE, 0), 5 * SCALE);
    let mut rot = RotationStrategy::P(500_000);
    assert_eq!(rot.rotation(16_000, PI_FX, 0), PI_FX / 2);
}

#[test]
fn test_pid_rotation_scenario() {
    // Pure proportional PID on rotation: target 0, current PI/2, dt = 1 s.
    let mut rot = RotationStrategy::PID {
        kp: 100_000,  // 0.1
        ki: 0,
        kd: 0,
        last_error: 0,
        integral: 0,
        clegg_integrator: false,
        integral_limit: Limit::new(-PI_FX, PI_FX),
    };
    let out = rot.rotation(SCALE, 0, 1_570_796);
    // shortest_angle(0, PI/2) * 0.1 = -0.157079...
    assert_eq!(out, -157_079);
}

#[test]
fn test_pid_linear_terms() {
    let pid = PID::new(100_000, 100_000, 1_000);
    let mut lin = pid.create_linear();
    // dt = 1 s, target 10, current 0: e = 10;
    // p = 1, integral accumulates to 10 so i = 1, d = (10 / 1) * 0.001 = 0.01.
    let out = lin.compute(SCALE, 10 * SCALE, 0);
    assert_eq!(out, 2_010_000);
    match lin {
        LinearAxisStrategy::PID { last_error, integral, .. } => {
            assert_eq!(last_error, 10 * SCALE);
            assert_eq!(integral, 10 * SCALE);
        }
        _ => panic!("strategy should stay PID"),
    }
}

#[test]
fn test_pid_zero_delta_time_skips_derivative() {
    let mut lin = LinearAxisStrategy::PID {
        kp: 0,
        ki: 0,
        kd: 1_000_000,
        last_error: 0,
        integral: 0,
        clegg_integrator: false,
        integral_limit: Limit::default(),
    };
    // With dt = 0 the derivative term is dropped rather than dividing by 0.
    assert_eq!(lin.compute(0, 10 * SCALE, 0), 0);
}

#[test]
fn test_pid_clegg_integrator_resets_on_sign_change() {
    let mut lin = LinearAxisStrategy::PID {
        kp: 0,
        ki: 1_000_000,  // gain 1, so the output mirrors the integral
        kd: 0,
        last_error: -SCALE,
        integral: 5 * SCALE,
        clegg_integrator: true,
        integral_limit: Limit::default(),
    };
    // Error flips from negative to positive: the integral discharges.
    assert_eq!(lin.compute(SCALE, SCALE, 0), 0);
    match lin {
        LinearAxisStrategy::PID { integral, last_error, .. } => {
            assert_eq!(integral, 0);
            assert_eq!(last_error, SCALE);
        }
        _ => panic!("strategy should stay PID"),
    }
}

#[test]
fn test_pid_integral_clamped_to_limit() {
    let mut lin = LinearAxisStrategy::PID {
        kp: 0,
        ki: 1_000_000,
        kd: 0,
        last_error: 0,
        integral: 0,
        clegg_integrator: false,
        integral_limit: Limit::new(-SCALE, SCALE),
    };
    // e * dt = 100 would push the integral far past the limit of 1.
    assert_eq!(lin.compute(SCALE, 100 * SCALE, 0), SCALE);
    match lin {
        LinearAxisStrategy::PID { integral, .. } => assert_eq!(integral, SCALE),
        _ => panic!("strategy should stay PID"),
    }
}

#[test]
fn test_pid_default_and_builders() {
    let d = PID::default();
    assert_eq!(d.kp, 100_000);
    assert_eq!(d.ki, 100_000);
    assert_eq!(d.kd, 1_000);
    assert!(!d.clegg_integrator);
    assert!(d.integral_limit.is_none());

    let p = PID::new(1, 2, 3).with_integral_limit(Limit::new(-5, 5));
    assert_eq!(p.kp, 1);
    assert_eq!(p.integral_limit, Some(Limit::new(-5, 5)));

    match p.create_radial() {
        RotationStrategy::PID { kp, ki, kd, last_error, integral, integral_limit, .. } => {
            assert_eq!((kp, ki, kd), (1, 2, 3));
            assert_eq!((last_error, integral), (0, 0));
            assert_eq!(integral_limit, Limit::new(-5, 5));
        }
        _ => panic!("create_radial should build a PID strategy"),
    }
    match PID::new(1, 2, 3).create_radial() {
        RotationStrategy::PID { integral_limit, .. } => {
            assert_eq!(integral_limit, Limit::new(-PI_FX, PI_FX));
        }
        _ => panic!("create_radial should build a PID strategy"),
    }
    match PID::new(1, 2, 3).create_linear() {
        LinearAxisStrategy::PID { integral_limit, .. } => {
            assert_eq!(integral_limit, Limit::new(FX_MIN, FX_MAX));
        }
        _ => panic!("create_linear should build a PID strategy"),
    }
}

#[test]
fn test_translation_strategy_is_componentwise() {
    let mut t = TranslationStrategy::new(LinearAxisStrategy::Fixed, LinearAxisStrategy::P(500_000));
    let delta = t.translation(16_000, Vec2::new(4 * SCALE, 10 * SCALE), Vec2::new(SCALE, 0));
    assert_eq!(delta, Vec2::new(3 * SCALE, 5 * SCALE));
}

#[test]
fn test_camera_follow_builders() {
    let f = CameraFollow::new(9);
    assert_eq!(f.target, 9);
    assert_eq!(f.offset, Vec2::zero());

    let f = CameraFollow::fixed(3);
    assert!(matches!(f.rotation_strategy, RotationStrategy::Fixed));
    assert!(matches!(f.translation_strategy.x, LinearAxisStrategy::Fixed));

    let f = CameraFollow::proportional(3, 250_000);
    assert!(matches!(f.rotation_strategy, RotationStrategy::P(250_000)));
    assert!(matches!(f.translation_strategy.y, LinearAxisStrategy::P(250_000)));

    let f = CameraFollow::fixed_translation(3);
    assert!(matches!(f.rotation_strategy, RotationStrategy::Inactive));

    let f = CameraFollow::proportional_translation(3, 250_000);
    assert!(matches!(f.rotation_strategy, RotationStrategy::Inactive));
    assert!(matches!(f.translation_strategy.x, LinearAxisStrategy::P(250_000)));

    let f = CameraFollow::pid(3, &PID::new(1, 2, 3));
    assert!(matches!(f.rotation_strategy, RotationStrategy::PID { .. }));
    assert!(matches!(f.translation_strategy.x, LinearAxisStrategy::PID { .. }));

    let f = CameraFollow::pid_translation(3, PID::new(1, 2, 3));
    assert!(matches!(f.rotation_strategy, RotationStrategy::Inactive));
    assert!(matches!(f.translation_strategy.y, LinearAxisStrategy::PID { .. }));

    let f = CameraFollow::pid_xyz(3, &PID::new(1, 0, 0), &PID::new(2, 0, 0), &PID::new(3, 0, 0));
    match f.translation_strategy.y {
        LinearAxisStrategy::PID { kp, .. } => assert_eq!(kp, 2),
        _ => panic!("y axis should be PID"),
    }

    let f = CameraFollow::new(1)
        .with_rotation(RotationStrategy::Fixed)
        .with_translation(TranslationStrategy::new(
            LinearAxisStrategy::Inactive,
            LinearAxisStrategy::Inactive,
        ))
        .with_offset(Vec2::new(SCALE, 2 * SCALE));
    assert!(matches!(f.rotation_strategy, RotationStrategy::Fixed));
    assert!(matches!(f.translation_strategy.x, LinearAxisStrategy::Inactive));
    assert_eq!(f.offset, Vec2::new(SCALE, 2 * SCALE));
}

#[test]
fn test_camera_follow_step_with_pid_rotation() {
    let mut follow = CameraFollow::new(1).with_rotation(RotationStrategy::PID {
        kp: 100_000,
        ki: 0,
        kd: 0,
        last_error: 0,
        integral: 0,
        clegg_integrator: false,
        integral_limit: Limit::new(-PI_FX, PI_FX),
    });
    let event = follow.follow(2, SCALE, Vec2::zero(), 0, Vec2::zero(), 1_570_796);
    assert_eq!(event.rotation, -157_079);
    assert_eq!(event.translation, Vec2::zero());
}

#[test]
fn test_camera_follow_step() {
    let mut follow = CameraFollow::fixed_translation(5).with_offset(Vec2::new(SCALE, 0));
    let event = follow.follow(
        7,                                  // camera id
        16_000,                             // dt
        Vec2::new(10 * SCALE, 4 * SCALE),   // target position
        0,                                  // target yaw
        Vec2::new(2 * SCALE, 4 * SCALE),    // camera position
        0,                                  // camera yaw
    );
    assert_eq!(event.camera, 7);
    // Fixed strategy snaps to target + offset in one step.
    assert_eq!(event.translation, Vec2::new(9 * SCALE, 0));
    assert_eq!(event.rotation, 0);
}
