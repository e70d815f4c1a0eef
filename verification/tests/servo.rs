use wotlib::scaling::{midpoint, scale};
use wotlib::servo::{step, PwmServo, Servo};
use wotlib::test_util::fake_pwm_pin::FakePwmPin;

#[test]
fn center_sets_mid_point() {
    let fake_pin = FakePwmPin::default();
    let mut servo = PwmServo {
        pin: fake_pin,
        min: 2500,
        max: 7500,
    };

    servo.center();

    assert_eq!(servo.get_duty(), 5000);
}

#[test]
fn sets_min_and_max_positions() {
    let fake_pin = FakePwmPin::default();
    let mut servo = PwmServo {
        pin: fake_pin,
        min: 2500,
        max: 7500,
    };

    servo.set_pos(i8::MIN);
    assert_eq!(servo.get_duty(), 2500);

    servo.set_pos(-64);
    assert_eq!(servo.get_duty(), 3750);

    servo.set_pos(0);
    assert_eq!(servo.get_duty(), 5000);

    servo.set_pos(64);
    assert_eq!(servo.get_duty(), 6250);

    servo.set_pos(i8::MAX);
    assert_eq!(servo.get_duty(), 7480);
}

#[test]
fn sets_zero_if_min_is_zero() {
    let fake_pin = FakePwmPin::default();
    let mut servo = PwmServo {
        pin: fake_pin,
        min: 0,
        max: 7500,
    };

    servo.set_pos(i8::MIN);
    assert_eq!(servo.get_duty(), 0);
}

#[test]
fn fresh_servo_reads_the_untouched_pin() {
    let servo = PwmServo {
        pin: FakePwmPin::default(),
        min: 2500,
        max: 7500,
    };
    assert_eq!(servo.get_duty(), 0);
}

#[test]
fn center_is_exact_midpoint_for_odd_and_large_bounds() {
    let mut servo = PwmServo {
        pin: FakePwmPin::default(),
        min: 3600,
        max: 5901,
    };
    servo.center();
    assert_eq!(servo.get_duty(), 4750);

    let mut wide = PwmServo {
        pin: FakePwmPin::default(),
        min: 40000,
        max: 60000,
    };
    wide.center();
    assert_eq!(wide.get_duty(), 50000);

    let mut top = PwmServo {
        pin: FakePwmPin::default(),
        min: 65534,
        max: 65535,
    };
    top.center();
    assert_eq!(top.get_duty(), 65534);
}

#[test]
fn center_does_not_go_through_the_position_formula() {
    let mut servo = PwmServo {
        pin: FakePwmPin::default(),
        min: 0,
        max: 255,
    };
    servo.set_pos(0);
    assert_eq!(servo.get_duty(), 127);
    servo.set_pos(-1);
    assert_eq!(servo.get_duty(), 126);
    servo.center();
    assert_eq!(servo.get_duty(), 127);

    let mut coarse = PwmServo {
        pin: FakePwmPin::default(),
        min: 0,
        max: 3,
    };
    coarse.set_pos(0);
    assert_eq!(coarse.get_duty(), 1);
    coarse.center();
    assert_eq!(coarse.get_duty(), 1);
    coarse.set_pos(i8::MAX);
    assert_eq!(coarse.get_duty(), 2);
}

#[test]
fn repeated_center_keeps_the_duty() {
    let mut servo = PwmServo {
        pin: FakePwmPin::default(),
        min: 3700,
        max: 6400,
    };
    servo.center();
    let first = servo.get_duty();
    servo.center();
    let second = servo.get_duty();
    servo.center();
    assert_eq!(first, 5050);
    assert_eq!(second, first);
    assert_eq!(servo.get_duty(), first);
    assert_eq!(servo.min, 3700);
    assert_eq!(servo.max, 6400);
}

#[test]
fn output_rises_with_position_and_stays_in_range() {
    let calibrations: [(u16, u16); 5] = [
        (2500, 7500),
        (0, 65535),
        (3600, 4900),
        (0, 1),
        (65000, 65535),
    ];
    for (min, max) in calibrations {
        let mut servo = PwmServo {
            pin: FakePwmPin::default(),
            min,
            max,
        };
        let mut previous = min;
        for pos in i8::MIN..=i8::MAX {
            servo.set_pos(pos);
            let duty = servo.get_duty();
            assert!(duty >= previous);
            assert!(duty >= min);
            assert!(duty < max);
            previous = duty;
        }
    }
}

#[test]
fn full_scale_range_stops_short_of_the_top() {
    let mut servo = PwmServo {
        pin: FakePwmPin::default(),
        min: 0,
        max: 65535,
    };
    servo.set_pos(i8::MAX);
    assert_eq!(servo.get_duty(), 65279);
    servo.set_pos(i8::MIN);
    assert_eq!(servo.get_duty(), 0);
    servo.set_pos(0);
    assert_eq!(servo.get_duty(), 32767);
}

#[test]
fn position_duty_matches_what_set_pos_writes() {
    let mut servo = PwmServo {
        pin: FakePwmPin::default(),
        min: 3600,
        max: 5900,
    };
    for pos in [i8::MIN, -100, -1, 0, 1, 77, i8::MAX] {
        let duty = servo.position_duty(pos);
        servo.set_pos(pos);
        assert_eq!(servo.get_duty(), duty);
    }
    assert_eq!(servo.position_duty(0), 4750);
    assert_eq!(servo.position_duty(100), 5648);
    assert_eq!(servo.center_duty(), 4750);
    assert_eq!(servo.get_duty(), 5891);
}

#[test]
fn step_shifts_positions_to_unsigned() {
    assert_eq!(step(i8::MIN), 0);
    assert_eq!(step(-64), 64);
    assert_eq!(step(-1), 127);
    assert_eq!(step(0), 128);
    assert_eq!(step(64), 192);
    assert_eq!(step(i8::MAX), 255);
}

#[test]
fn scale_uses_floor_division() {
    assert_eq!(scale(0, 2500, 7500), 2500);
    assert_eq!(scale(64, 2500, 7500), 3750);
    assert_eq!(scale(128, 2500, 7500), 5000);
    assert_eq!(scale(192, 2500, 7500), 6250);
    assert_eq!(scale(255, 2500, 7500), 7480);
    assert_eq!(scale(1, 0, 255), 0);
    assert_eq!(scale(2, 0, 255), 1);
    assert_eq!(scale(255, 0, 65535), 65279);
    assert_eq!(scale(255, 65535, 65535), 65535);
    assert_eq!(scale(200, 10, 10), 10);
}

#[test]
fn midpoint_rounds_down_and_never_overflows() {
    assert_eq!(midpoint(2500, 7500), 5000);
    assert_eq!(midpoint(0, 1), 0);
    assert_eq!(midpoint(1, 2), 1);
    assert_eq!(midpoint(65535, 65535), 65535);
    assert_eq!(midpoint(0, 65535), 32767);
    assert_eq!(midpoint(7500, 2500), 5000);
}

#[test]
fn calibration_must_span_a_range() {
    assert!(PwmServo { pin: (), min: 2500, max: 7500 }.is_calibrated());
    assert!(PwmServo { pin: (), min: 0, max: 1 }.is_calibrated());
    assert!(!PwmServo { pin: (), min: 5000, max: 5000 }.is_calibrated());
    assert!(!PwmServo { pin: (), min: 7500, max: 2500 }.is_calibrated());
}
