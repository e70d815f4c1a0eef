use std::cell::RefCell;
use std::rc::Rc;

use embedded_hal::blocking::delay::DelayMs;
use embedded_hal::PwmPin;
use wotlib::channel::Action;
use wotlib::servo::PwmServo;
use wotlib::throttle::{PwmThrottle, DISARMED_DUTY};

#[derive(Debug, PartialEq)]
enum Event {
    Duty(u16),
    Pause(u16),
}

struct BenchPin {
    duty: u16,
    enabled: bool,
    log: Rc<RefCell<Vec<Event>>>,
}

impl BenchPin {
    fn new(log: &Rc<RefCell<Vec<Event>>>) -> BenchPin {
        BenchPin {
            duty: 0,
            enabled: true,
            log: Rc::clone(log),
        }
    }
}

impl PwmPin for BenchPin {
    type Duty = u16;

    fn disable(&mut self) {
        self.enabled = false;
    }

    fn enable(&mut self) {
        self.enabled = true;
    }

    fn get_duty(&self) -> u16 {
        self.duty
    }

    fn get_max_duty(&self) -> u16 {
        u16::MAX
    }

    fn set_duty(&mut self, duty: u16) {
        self.duty = duty;
        self.log.borrow_mut().push(Event::Duty(duty));
    }
}

struct BenchDelay {
    log: Rc<RefCell<Vec<Event>>>,
}

impl DelayMs<u16> for BenchDelay {
    fn delay_ms(&mut self, ms: u16) {
        self.log.borrow_mut().push(Event::Pause(ms));
    }
}

#[test]
fn servo_duties_drive_a_hal_pin() {
    let log = Rc::new(RefCell::new(Vec::new()));
    let mut bench = BenchPin::new(&log);
    let pin: &mut dyn PwmPin<Duty = u16> = &mut bench;
    let servo = PwmServo {
        pin,
        min: 2500,
        max: 7500,
    };

    let duty = servo.center_duty();
    servo.pin.set_duty(duty);
    assert_eq!(servo.pin.get_duty(), 5000);

    for (pos, expected) in [
        (i8::MIN, 2500),
        (-64, 3750),
        (0, 5000),
        (64, 6250),
        (i8::MAX, 7480),
    ] {
        let duty = servo.position_duty(pos);
        servo.pin.set_duty(duty);
        assert_eq!(servo.pin.get_duty(), expected);
    }

    assert_eq!(
        *log.borrow(),
        vec![
            Event::Duty(5000),
            Event::Duty(2500),
            Event::Duty(3750),
            Event::Duty(5000),
            Event::Duty(6250),
            Event::Duty(7480)
        ]
    );
}

#[test]
fn arm_plan_drives_a_hal_pin_and_delay_in_order() {
    let log = Rc::new(RefCell::new(Vec::new()));
    let mut bench = BenchPin::new(&log);
    let mut delay = BenchDelay {
        log: Rc::clone(&log),
    };
    let pin: &mut dyn PwmPin<Duty = u16> = &mut bench;
    let throttle = PwmThrottle {
        pin,
        neutral: 2500,
        max: 7500,
    };

    throttle.pin.set_duty(DISARMED_DUTY);
    for action in throttle.arm_plan() {
        match action {
            Action::Write(duty) => throttle.pin.set_duty(duty),
            Action::Suspend(ms) => delay.delay_ms(ms),
        }
    }
    let duty = throttle.power_duty(128);
    throttle.pin.set_duty(duty);

    assert_eq!(
        *log.borrow(),
        vec![
            Event::Duty(0),
            Event::Duty(2500),
            Event::Pause(50),
            Event::Duty(2500),
            Event::Duty(5000)
        ]
    );
    assert!(bench.enabled);
}
