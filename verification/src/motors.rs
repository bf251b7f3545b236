//! Motor command mapping: a signed wheel speed becomes a pair of PWM
//! compare (duty) values, one per direction, and the named maneuvers set
//! both wheels at full magnitude.

use vstd::prelude::*;

verus! {

/// Largest duty magnitude a wheel accepts; speeds are clamped to
/// `[-MAX_DUTY, MAX_DUTY]` before they reach the hardware.
pub const MAX_DUTY: u16 = 3500;

/// Fixed PWM carrier divider, configured once at startup.
pub const PWM_DIV_INT: u8 = 250;

/// Fixed PWM counter wrap value, configured once at startup.
pub const PWM_TOP: u16 = 10000;

/// The two compare values of one wheel's PWM slice: `reverse_duty` drives
/// the wheel backward, `forward_duty` forward. At most one is non-zero.
#[derive(Clone, Copy, PartialEq, Eq, Structural, Debug)]
pub struct DutyPair {
    pub forward_duty: u16,
    pub reverse_duty: u16,
}

impl DutyPair {
    /// At most one direction is ever driven: the product of the two duty
    /// values is zero.
    pub open spec fn wf(self) -> bool {
        self.forward_duty * self.reverse_duty == 0
    }
}

/// A speed saturates at the duty range's two ends.
pub open spec fn clamp_speed(speed: int) -> int {
    if speed > MAX_DUTY as int {
        MAX_DUTY as int
    } else if speed < -(MAX_DUTY as int) {
        -(MAX_DUTY as int)
    } else {
        speed
    }
}

/// The duty pair a signed speed maps to: the clamped magnitude goes to the
/// direction the sign selects, the other direction stays at zero.
pub open spec fn duty_for(speed: int) -> DutyPair {
    let c = clamp_speed(speed);
    if c < 0 {
        DutyPair { forward_duty: 0, reverse_duty: (-c) as u16 }
    } else {
        DutyPair { forward_duty: c as u16, reverse_duty: 0 }
    }
}

/// The duty values last commanded to the two wheels. The hardware layer
/// copies each field into its PWM slice's compare registers after every
/// command; nothing else writes those registers.
pub struct Motors {
    pub left: DutyPair,
    pub right: DutyPair,
}

impl Motors {
    pub fn new(left: DutyPair, right: DutyPair) -> (m: Motors)
        ensures
            m.left == left,
            m.right == right,
    {
        Motors { left, right }
    }

    /// The duty pair for a commanded speed; the speed is clamped first, so
    /// an out-of-range command never reaches the hardware.
    pub fn conf_for_speed(speed: i16) -> (r: DutyPair)
        ensures
            r == duty_for(speed as int),
    {
        let s: i16 = if speed > MAX_DUTY as i16 {
            MAX_DUTY as i16
        } else if speed < -(MAX_DUTY as i16) {
            -(MAX_DUTY as i16)
        } else {
            speed
        };
        if s < 0 {
            DutyPair { forward_duty: 0, reverse_duty: (-s) as u16 }
        } else {
            DutyPair { forward_duty: s as u16, reverse_duty: 0 }
        }
    }

    pub fn set_left_speed(&mut self, speed: i16)
        ensures
            final(self).left == duty_for(speed as int),
            final(self).right == old(self).right,
    {
        self.left = Self::conf_for_speed(speed);
    }

    pub fn set_right_speed(&mut self, speed: i16)
        ensures
            final(self).right == duty_for(speed as int),
            final(self).left == old(self).left,
    {
        self.right = Self::conf_for_speed(speed);
    }

    /// Pivot in place to the left: left wheel full reverse, right wheel
    /// full forward.
    pub fn turn_left(&mut self)
        ensures
            final(self).left == duty_for(-(MAX_DUTY as int)),
            final(self).right == duty_for(MAX_DUTY as int),
    {
        self.set_left_speed(-(MAX_DUTY as i16));
        self.set_right_speed(MAX_DUTY as i16);
    }

    /// Pivot in place to the right: left wheel full forward, right wheel
    /// full reverse.
    pub fn turn_right(&mut self)
        ensures
            final(self).left == duty_for(MAX_DUTY as int),
            final(self).right == duty_for(-(MAX_DUTY as int)),
    {
        self.set_left_speed(MAX_DUTY as i16);
        self.set_right_speed(-(MAX_DUTY as i16));
    }

    /// Drive straight ahead with both wheels at full forward duty.
    #[allow(non_snake_case)]
    pub fn CHARGEEEEE(&mut self)
        ensures
            final(self).left == duty_for(MAX_DUTY as int),
            final(self).right == duty_for(MAX_DUTY as int),
    {
        self.set_left_speed(MAX_DUTY as i16);
        self.set_right_speed(MAX_DUTY as i16);
    }

    /// Back away with both wheels at full reverse duty.
    pub fn reverse(&mut self)
        ensures
            final(self).left == duty_for(-(MAX_DUTY as int)),
            final(self).right == duty_for(-(MAX_DUTY as int)),
    {
        self.set_left_speed(-(MAX_DUTY as i16));
        self.set_right_speed(-(MAX_DUTY as i16));
    }
}

/// Every duty pair the mapping produces drives at most one direction.
pub proof fn lemma_duty_for_wf(speed: int)
    ensures
        duty_for(speed).wf(),
{
}

/// For a speed within range, the two duties are never both non-zero, they
/// are both zero exactly when the speed is zero, and the driven duty
/// equals the speed's magnitude.
pub proof fn lemma_duty_magnitude(speed: int)
    requires
        -(MAX_DUTY as int) <= speed <= MAX_DUTY as int,
    ensures
        duty_for(speed).forward_duty == 0 || duty_for(speed).reverse_duty == 0,
        (duty_for(speed).forward_duty == 0 && duty_for(speed).reverse_duty == 0) <==> speed == 0,
        vstd::math::max(
            duty_for(speed).forward_duty as int,
            duty_for(speed).reverse_duty as int,
        ) == vstd::math::abs(speed),
        speed >= 0 ==> duty_for(speed).forward_duty == speed,
        speed < 0 ==> duty_for(speed).reverse_duty == -speed,
{
}

/// Clamping saturates: any out-of-range speed maps to the same duty pair
/// as the nearest end of the range.
pub proof fn lemma_clamp_saturates(speed: int)
    requires
        speed > MAX_DUTY as int || speed < -(MAX_DUTY as int),
    ensures
        speed > 0 ==> duty_for(speed) == duty_for(MAX_DUTY as int),
        speed < 0 ==> duty_for(speed) == duty_for(-(MAX_DUTY as int)),
{
}

} // verus!
