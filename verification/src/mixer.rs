//! Final stage of the X-configuration quadcopter motor mixer: turning the four
//! mixed motor commands into ESC pulse widths.
//!
//! The mixing matrix itself works on floating-point control outputs
//!
//! ```text
//!   FL = throttle + roll + pitch - yaw
//!   FR = throttle - roll + pitch + yaw
//!   BL = throttle + roll - pitch + yaw
//!   BR = throttle - roll - pitch - yaw
//! ```
//!
//! and is evaluated by the firmware binary. Each mixed command reaches this
//! module as its whole-microsecond part, truncated toward zero (saturating at
//! the `i32` range), or as `None` where the mixed command is not a number.
//! Because the pulse limits are whole numbers, clamping the truncated value
//! gives the same pulse as truncating the clamped value.

use vstd::prelude::*;

verus! {

/// Shortest ESC pulse, in microseconds (motor off / minimum throttle).
pub const MIN_PULSE: u16 = 1000;

/// Longest ESC pulse, in microseconds (full throttle).
pub const MAX_PULSE: u16 = 2000;

/// Motor output values in ESC pulse width (microseconds).
#[derive(Debug, Clone, Copy, PartialEq, Eq, Structural)]
pub struct MotorOutputs {
    /// Front-left motor (counter-clockwise).
    pub fl: u16,
    /// Front-right motor (clockwise).
    pub fr: u16,
    /// Back-left motor (clockwise).
    pub bl: u16,
    /// Back-right motor (counter-clockwise).
    pub br: u16,
}

/// The pulse width for a mixed command: its whole part clamped to
/// `[MIN_PULSE, MAX_PULSE]`; a command that is not a number gives 0.
pub open spec fn pulse_of(whole: Option<i32>) -> u16 {
    match whole {
        None => 0,
        Some(v) => if v < MIN_PULSE {
            MIN_PULSE
        } else if v > MAX_PULSE {
            MAX_PULSE
        } else {
            v as u16
        },
    }
}

/// Clamps one mixed command to the ESC pulse limits and converts it to a
/// pulse width in microseconds.
pub fn clamp_pulse(whole: Option<i32>) -> (pulse: u16)
    ensures
        pulse == pulse_of(whole),
        whole is Some ==> MIN_PULSE <= pulse <= MAX_PULSE,
        whole is None ==> pulse == 0,
{
    match whole {
        None => 0,
        Some(v) => {
            if v < MIN_PULSE as i32 {
                MIN_PULSE
            } else if v > MAX_PULSE as i32 {
                MAX_PULSE
            } else {
                v as u16
            }
        },
    }
}

impl MotorOutputs {
    /// The outputs for four mixed commands, each clamped on its own.
    pub open spec fn spec_from_mixed(
        fl: Option<i32>,
        fr: Option<i32>,
        bl: Option<i32>,
        br: Option<i32>,
    ) -> MotorOutputs {
        MotorOutputs { fl: pulse_of(fl), fr: pulse_of(fr), bl: pulse_of(bl), br: pulse_of(br) }
    }

    /// Builds the motor outputs from the four mixed commands (front-left,
    /// front-right, back-left, back-right), clamping each to the ESC limits.
    pub fn from_mixed(fl: Option<i32>, fr: Option<i32>, bl: Option<i32>, br: Option<i32>) -> (out:
        MotorOutputs)
        ensures
            out == MotorOutputs::spec_from_mixed(fl, fr, bl, br),
            fl is Some && fl.unwrap() > MAX_PULSE ==> out.fl == MAX_PULSE,
            fl is Some && fl.unwrap() < MIN_PULSE ==> out.fl == MIN_PULSE,
            fl is Some && MIN_PULSE <= fl.unwrap() <= MAX_PULSE ==> out.fl == fl.unwrap(),
            fl is None ==> out.fl == 0,
            fr is Some && fr.unwrap() > MAX_PULSE ==> out.fr == MAX_PULSE,
            fr is Some && fr.unwrap() < MIN_PULSE ==> out.fr == MIN_PULSE,
            fr is Some && MIN_PULSE <= fr.unwrap() <= MAX_PULSE ==> out.fr == fr.unwrap(),
            fr is None ==> out.fr == 0,
            bl is Some && bl.unwrap() > MAX_PULSE ==> out.bl == MAX_PULSE,
            bl is Some && bl.unwrap() < MIN_PULSE ==> out.bl == MIN_PULSE,
            bl is Some && MIN_PULSE <= bl.unwrap() <= MAX_PULSE ==> out.bl == bl.unwrap(),
            bl is None ==> out.bl == 0,
            br is Some && br.unwrap() > MAX_PULSE ==> out.br == MAX_PULSE,
            br is Some && br.unwrap() < MIN_PULSE ==> out.br == MIN_PULSE,
            br is Some && MIN_PULSE <= br.unwrap() <= MAX_PULSE ==> out.br == br.unwrap(),
            br is None ==> out.br == 0,
    {
        MotorOutputs {
            fl: clamp_pulse(fl),
            fr: clamp_pulse(fr),
            bl: clamp_pulse(bl),
            br: clamp_pulse(br),
        }
    }

    /// Every output lies within the ESC pulse limits.
    pub open spec fn within_limits(self) -> bool {
        &&& MIN_PULSE <= self.fl <= MAX_PULSE
        &&& MIN_PULSE <= self.fr <= MAX_PULSE
        &&& MIN_PULSE <= self.bl <= MAX_PULSE
        &&& MIN_PULSE <= self.br <= MAX_PULSE
    }
}

/// A mixed command that is a number always yields a pulse within the ESC
/// limits; a command already within the limits is passed through unchanged.
pub proof fn lemma_pulse_clamped(v: i32)
    ensures
        MIN_PULSE <= pulse_of(Some(v)) <= MAX_PULSE,
        MIN_PULSE <= v <= MAX_PULSE ==> pulse_of(Some(v)) == v,
        v <= MIN_PULSE ==> pulse_of(Some(v)) == MIN_PULSE,
        v >= MAX_PULSE ==> pulse_of(Some(v)) == MAX_PULSE,
{
}

/// Clamping keeps the order of commands: a larger command never yields a
/// shorter pulse.
pub proof fn lemma_pulse_monotone(a: i32, b: i32)
    requires
        a <= b,
    ensures
        pulse_of(Some(a)) <= pulse_of(Some(b)),
{
}

/// Clamping a pulse that is already within the limits changes nothing.
pub proof fn lemma_pulse_idempotent(v: i32)
    ensures
        pulse_of(Some(pulse_of(Some(v)) as i32)) == pulse_of(Some(v)),
{
}

/// When all four mixed commands are numbers, all four outputs lie within the
/// ESC limits.
pub proof fn lemma_outputs_within_limits(fl: i32, fr: i32, bl: i32, br: i32)
    ensures
        MotorOutputs::spec_from_mixed(Some(fl), Some(fr), Some(bl), Some(br)).within_limits(),
{
}

/// Each motor's pulse depends on that motor's own command alone: a command
/// above 2000 us gives 2000, one below 1000 us gives 1000, one within the
/// limits is passed through as it is, and one that is not a number gives 0.
pub proof fn lemma_from_mixed_clamps_each_motor(
    fl: Option<i32>,
    fr: Option<i32>,
    bl: Option<i32>,
    br: Option<i32>,
)
    ensures
        ({
            let out = MotorOutputs::spec_from_mixed(fl, fr, bl, br);
            &&& (fl is Some && fl.unwrap() > 2000 ==> out.fl == 2000)
            &&& (fl is Some && fl.unwrap() < 1000 ==> out.fl == 1000)
            &&& (fl is Some && 1000 <= fl.unwrap() <= 2000 ==> out.fl == fl.unwrap())
            &&& (fl is None ==> out.fl == 0)
            &&& (fr is Some && fr.unwrap() > 2000 ==> out.fr == 2000)
            &&& (fr is Some && fr.unwrap() < 1000 ==> out.fr == 1000)
            &&& (fr is Some && 1000 <= fr.unwrap() <= 2000 ==> out.fr == fr.unwrap())
            &&& (fr is None ==> out.fr == 0)
            &&& (bl is Some && bl.unwrap() > 2000 ==> out.bl == 2000)
            &&& (bl is Some && bl.unwrap() < 1000 ==> out.bl == 1000)
            &&& (bl is Some && 1000 <= bl.unwrap() <= 2000 ==> out.bl == bl.unwrap())
            &&& (bl is None ==> out.bl == 0)
            &&& (br is Some && br.unwrap() > 2000 ==> out.br == 2000)
            &&& (br is Some && br.unwrap() < 1000 ==> out.br == 1000)
            &&& (br is Some && 1000 <= br.unwrap() <= 2000 ==> out.br == br.unwrap())
            &&& (br is None ==> out.br == 0)
        }),
{
}

} // verus!
