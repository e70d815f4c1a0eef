//! Power control for an electronic speed controller: an unsigned power
//! level becomes a duty cycle between idle and full power, and the signal
//! can be withdrawn, held at idle, or held at idle long enough for the
//! controller to arm.
//!
//! [`PwmThrottle::power_duty`] and [`PwmThrottle::arm_plan`] say what to do
//! and do nothing. The methods of [`Throttle`] also do it, on a throttle
//! whose pin is a [`PwmChannel`].

use crate::channel::{perform, Action, ChannelView, Delay, PwmChannel};
use crate::scaling::{scale, scaled, scaled_at_zero, scaled_is_monotonic, scaled_within_range};
use vstd::prelude::*;

verus! {

/// How long the idle signal is held while arming, in milliseconds.
pub const ARM_SETTLE_MS: u16 = 50;

/// The duty cycle of a withdrawn signal. A speed controller that sees it
/// refuses to spin the motor.
pub const DISARMED_DUTY: u16 = 0;

/// The duty cycle that stands for power level `level` between the idle duty
/// cycle `neutral` and the full-power duty cycle `max`.
pub open spec fn power_duty(neutral: u16, max: u16, level: u8) -> int {
    scaled(level as int, neutral as int, max as int)
}

/// The arming sequence for the idle duty cycle `neutral`: write idle, hold
/// it for [`ARM_SETTLE_MS`], write idle again.
pub open spec fn arm_sequence(neutral: u16) -> Seq<Action> {
    seq![Action::Write(neutral), Action::Suspend(ARM_SETTLE_MS), Action::Write(neutral)]
}

/// A throttle as its callers know it: the idle and full-power duty cycles
/// and the channel it drives.
pub struct ThrottleView {
    pub neutral: u16,
    pub max: u16,
    pub channel: ChannelView,
}

impl ThrottleView {
    /// Idle lies below full power.
    pub open spec fn calibrated(self) -> bool {
        self.neutral < self.max
    }

    /// The signal is withdrawn.
    pub open spec fn is_disarmed(self) -> bool {
        self.channel.duty == DISARMED_DUTY
    }

    /// The signal is present and asks for no power.
    pub open spec fn is_idle(self) -> bool {
        self.channel.duty == self.neutral
    }

    /// The throttle after one write of `duty` to its channel.
    pub open spec fn drive(self, duty: int) -> ThrottleView {
        ThrottleView {
            neutral: self.neutral,
            max: self.max,
            channel: self.channel.write(duty as u16),
        }
    }

    /// The throttle after the signal was withdrawn.
    pub open spec fn disarm(self) -> ThrottleView {
        self.drive(DISARMED_DUTY as int)
    }

    /// The throttle after it was set to idle.
    pub open spec fn off(self) -> ThrottleView {
        self.drive(self.neutral as int)
    }

    /// The throttle after the arming sequence: idle was written, held, and
    /// written once more.
    pub open spec fn arm(self) -> ThrottleView {
        self.off().off()
    }

    /// The throttle after it was set to power level `level`.
    pub open spec fn set(self, level: u8) -> ThrottleView {
        self.drive(power_duty(self.neutral, self.max, level))
    }

    /// Every duty cycle written so far is either the withdrawn signal or
    /// lies between idle and full power.
    pub open spec fn writes_within_bounds(self) -> bool {
        forall|i: int|
            0 <= i < self.channel.writes.len() ==> {
                let duty = #[trigger] self.channel.writes[i];
                duty == DISARMED_DUTY || self.neutral <= duty <= self.max
            }
    }
}

/// Going to idle yields the idle duty cycle, whatever the throttle did
/// before.
pub proof fn off_yields_neutral(throttle: ThrottleView)
    ensures
        throttle.off().channel.duty == throttle.neutral,
        throttle.off().is_idle(),
{
}

/// Disarming yields duty cycle zero, whatever the throttle did before.
pub proof fn disarm_yields_zero(throttle: ThrottleView)
    ensures
        throttle.disarm().channel.duty == 0,
        throttle.disarm().is_disarmed(),
{
}

/// Arming leaves the throttle where going to idle leaves it, after two
/// writes of the idle duty cycle.
pub proof fn arm_ends_as_off(throttle: ThrottleView)
    ensures
        throttle.arm().channel.duty == throttle.off().channel.duty == throttle.neutral,
        throttle.arm().is_idle(),
        throttle.arm().channel.writes == throttle.channel.writes.push(throttle.neutral).push(
            throttle.neutral,
        ),
{
}

/// The arming sequence holds exactly one pause, of fixed and positive
/// length, between two writes of the idle duty cycle.
pub proof fn arm_sequence_pauses_once(neutral: u16)
    ensures
        arm_sequence(neutral).len() == 3,
        arm_sequence(neutral)[0] == Action::Write(neutral),
        arm_sequence(neutral)[1] == Action::Suspend(50),
        arm_sequence(neutral)[2] == Action::Write(neutral),
        ARM_SETTLE_MS > 0,
{
}

/// Carried out in order, the arming sequence does to the channel what
/// arming does, and adds its one pause to those taken before.
pub proof fn arm_sequence_arms(throttle: ThrottleView, pauses: Seq<u16>)
    ensures
        ({
            let plan = arm_sequence(throttle.neutral);
            let channel = plan[2].on_channel(
                plan[1].on_channel(plan[0].on_channel(throttle.channel)),
            );
            let paused = plan[2].on_pauses(plan[1].on_pauses(plan[0].on_pauses(pauses)));
            channel == throttle.arm().channel && paused == pauses.push(ARM_SETTLE_MS)
        }),
{
}

/// Going to idle again, or disarming again, changes neither the duty cycle
/// nor the calibration.
pub proof fn off_and_disarm_are_idempotent(throttle: ThrottleView)
    ensures
        throttle.off().off().channel.duty == throttle.off().channel.duty,
        throttle.off().off().neutral == throttle.off().neutral == throttle.neutral,
        throttle.off().off().max == throttle.off().max == throttle.max,
        throttle.disarm().disarm().channel.duty == throttle.disarm().channel.duty,
        throttle.disarm().disarm().neutral == throttle.disarm().neutral == throttle.neutral,
        throttle.disarm().disarm().max == throttle.disarm().max == throttle.max,
{
}

/// A higher power level never gives a smaller duty cycle.
pub proof fn set_is_monotonic(throttle: ThrottleView, a: u8, b: u8)
    requires
        throttle.calibrated(),
        a <= b,
    ensures
        throttle.set(a).channel.duty <= throttle.set(b).channel.duty,
{
    set_within_bounds(throttle, a);
    set_within_bounds(throttle, b);
    scaled_is_monotonic(a as int, b as int, throttle.neutral as int, throttle.max as int);
}

/// Every power level gives a duty cycle from idle upwards and below full
/// power. Level zero gives idle exactly.
pub proof fn set_within_bounds(throttle: ThrottleView, level: u8)
    requires
        throttle.calibrated(),
    ensures
        throttle.set(level).channel.duty == power_duty(throttle.neutral, throttle.max, level),
        throttle.neutral <= throttle.set(level).channel.duty < throttle.max,
        throttle.set(0).channel.duty == throttle.neutral,
{
    scaled_within_range(level as int, throttle.neutral as int, throttle.max as int);
    scaled_at_zero(throttle.neutral as int, throttle.max as int);
}

/// A throttle on a channel that nothing was written to has written nothing
/// outside its bounds.
pub proof fn throttle_starts_within_bounds(throttle: ThrottleView)
    requires
        throttle.channel.writes.len() == 0,
    ensures
        throttle.writes_within_bounds(),
{
}

/// A calibrated throttle that has only written the withdrawn signal or duty
/// cycles between idle and full power keeps doing so, whatever it is asked.
pub proof fn throttle_keeps_writes_within_bounds(throttle: ThrottleView, level: u8)
    requires
        throttle.calibrated(),
        throttle.writes_within_bounds(),
    ensures
        throttle.disarm().writes_within_bounds(),
        throttle.off().writes_within_bounds(),
        throttle.arm().writes_within_bounds(),
        throttle.set(level).writes_within_bounds(),
{
    set_within_bounds(throttle, level);
}

/// A power-controlled actuator behind a speed controller.
///
/// The speed controller answers to [`Throttle::set`] only after
/// [`Throttle::arm`]. Nothing here enforces that order: `set` writes
/// whatever came before it, and it is the caller who keeps power off an
/// unarmed controller.
///
/// Arming is by holding idle. A speed controller that wants to see the
/// signal swept from one end to the other before it arms is not served.
pub trait Throttle {
    spec fn view(&self) -> ThrottleView;

    /// Arms the speed controller: writes idle, pauses once for
    /// [`ARM_SETTLE_MS`], and writes idle again.
    fn arm<D: Delay>(&mut self, delay: &mut D)
        ensures
            final(self)@ == old(self)@.arm(),
            final(delay)@ == old(delay)@.push(ARM_SETTLE_MS),
    ;

    /// Withdraws the signal with one write to the channel.
    fn disarm(&mut self)
        ensures
            final(self)@ == old(self)@.disarm(),
    ;

    /// Goes to idle with one write to the channel.
    fn off(&mut self)
        ensures
            final(self)@ == old(self)@.off(),
    ;

    /// Goes to power level `duty` with one write to the channel.
    fn set(&mut self, duty: u8)
        requires
            old(self)@.calibrated(),
        ensures
            final(self)@ == old(self)@.set(duty),
    ;
}

/// A throttle on a PWM pin that it owns, calibrated to the duty cycles
/// `neutral` of idle and `max` of full power.
pub struct PwmThrottle<P> {
    pub pin: P,
    pub neutral: u16,
    pub max: u16,
}

impl<P> PwmThrottle<P> {
    /// Idle lies below full power.
    pub open spec fn calibrated(&self) -> bool {
        self.neutral < self.max
    }

    /// Whether idle lies below full power, as [`PwmThrottle::power_duty`]
    /// and [`Throttle::set`] need it to.
    pub fn is_calibrated(&self) -> (ok: bool)
        ensures
            ok == self.calibrated(),
    {
        self.neutral < self.max
    }

    /// The duty cycle that stands for power level `level`. Nothing is
    /// written.
    pub fn power_duty(&self, level: u8) -> (duty: u16)
        requires
            self.calibrated(),
        ensures
            duty == power_duty(self.neutral, self.max, level),
            self.neutral <= duty < self.max,
    {
        proof {
            scaled_within_range(level as int, self.neutral as int, self.max as int);
        }
        scale(level, self.neutral, self.max)
    }

    /// What arming takes, in the order in which it is to be done. Nothing
    /// is written and no time passes.
    pub fn arm_plan(&self) -> (plan: [Action; 3])
        ensures
            plan@ == arm_sequence(self.neutral),
    {
        [Action::Write(self.neutral), Action::Suspend(ARM_SETTLE_MS), Action::Write(self.neutral)]
    }
}

impl<P: PwmChannel> PwmThrottle<P> {
    /// Reads the duty cycle back from the channel.
    pub fn get_duty(&self) -> (duty: u16)
        ensures
            duty == self@.channel.duty,
    {
        self.pin.read_duty_cycle()
    }
}

impl<P: PwmChannel> Throttle for PwmThrottle<P> {
    open spec fn view(&self) -> ThrottleView {
        ThrottleView { neutral: self.neutral, max: self.max, channel: self.pin@ }
    }

    fn arm<D: Delay>(&mut self, delay: &mut D) {
        let plan: [Action; 3] = self.arm_plan();
        perform(plan[0], &mut self.pin, delay);
        perform(plan[1], &mut self.pin, delay);
        perform(plan[2], &mut self.pin, delay);
    }

    fn disarm(&mut self) {
        self.pin.set_duty_cycle(DISARMED_DUTY);
    }

    fn off(&mut self) {
        self.pin.set_duty_cycle(self.neutral);
    }

    fn set(&mut self, duty: u8) {
        let pos: u16 = self.power_duty(duty);
        self.pin.set_duty_cycle(pos);
    }
}

} // verus!
