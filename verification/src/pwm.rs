//! PWM settings that drive four brushless ESCs from two RP2040 PWM slices.
//!
//! Motor: 2212 2200KV 6T brushless outrunner, four motors in X-configuration,
//! each driven by its own ESC. ESC protocol: standard PWM at 50 Hz with a
//! 1000-2000 us pulse width.
//!
//! Pin mapping:
//!   slice 0 channel A -> front-left  (FL) motor
//!   slice 0 channel B -> front-right (FR) motor
//!   slice 1 channel A -> back-left   (BL) motor
//!   slice 1 channel B -> back-right  (BR) motor

use vstd::prelude::*;

use crate::mixer::{pulse_of, MotorOutputs};

verus! {

/// 1000 us pulse: motor off / minimum throttle.
pub const ESC_MIN: u16 = 1000;

/// 2000 us pulse: maximum throttle.
pub const ESC_MAX: u16 = 2000;

/// RP2040 system clock, in Hz.
pub const SYS_CLOCK_HZ: u32 = 125_000_000;

/// Clock divider 125.0 in the PWM's fixed-point 8.4 format
/// (`integer_part << 4 | frac_part`): the counter then runs at 1 MHz.
pub const ESC_DIVIDER_BITS: u16 = 2000;

/// Counter wrap value: 20000 ticks of 1 us, a 20 ms (50 Hz) frame.
pub const ESC_TOP: u16 = 20000;

/// The settings of one PWM slice that this firmware chooses. The remaining
/// settings of a slice (output inversion, phase-correct mode, enable) keep
/// the HAL's defaults.
#[derive(Debug, Clone, Copy, PartialEq, Eq, Structural)]
pub struct PwmConfig {
    /// Clock divider in fixed-point 8.4 format (raw bits).
    pub divider_bits: u16,
    /// Counter wrap value.
    pub top: u16,
    /// Channel A is high while the counter is below this value.
    pub compare_a: u16,
    /// Channel B is high while the counter is below this value.
    pub compare_b: u16,
}

impl PwmConfig {
    /// Counter rate in Hz: the system clock over the fixed-point divider.
    pub open spec fn counter_hz(self) -> int {
        SYS_CLOCK_HZ as int * 16 / self.divider_bits as int
    }
}

/// The ESC settings: 1 MHz counter, 20 ms frame, both channels at minimum
/// throttle.
pub open spec fn spec_esc_pwm_config() -> PwmConfig {
    PwmConfig {
        divider_bits: ESC_DIVIDER_BITS,
        top: ESC_TOP,
        compare_a: ESC_MIN,
        compare_b: ESC_MIN,
    }
}

/// Creates a PWM configuration suitable for driving brushless ESCs.
///
/// RP2040 system clock = 125 MHz; divider = 125 gives a 1 MHz counter
/// (1 us resolution), so compare values are pulse widths in microseconds;
/// top = 20000 gives a 20 ms period (50 Hz, the standard ESC signal).
pub fn esc_pwm_config() -> (config: PwmConfig)
    ensures
        config == spec_esc_pwm_config(),
        config.counter_hz() == 1_000_000,
        config.divider_bits == 125 * 16,
        config.top == 20000,
{
    // The divider is stored as fixed-point 8.4: integer part 125, fraction 0.
    let divider_bits: u16 = 125u16 << 4u16;
    assert(125u16 << 4u16 == 2000u16) by (bit_vector);
    assert(SYS_CLOCK_HZ as int * 16 / 2000 == 1_000_000);
    PwmConfig { divider_bits, top: ESC_TOP, compare_a: ESC_MIN, compare_b: ESC_MIN }
}

/// A throttle value clamped to `[ESC_MIN, ESC_MAX]`.
pub open spec fn throttle_of(v: u16) -> u16 {
    if v < ESC_MIN {
        ESC_MIN
    } else if v > ESC_MAX {
        ESC_MAX
    } else {
        v
    }
}

/// Clamps a throttle pulse width to the range the ESCs accept.
pub fn clamp_throttle(v: u16) -> (t: u16)
    ensures
        t == throttle_of(v),
        ESC_MIN <= t <= ESC_MAX,
{
    if v < ESC_MIN {
        ESC_MIN
    } else if v > ESC_MAX {
        ESC_MAX
    } else {
        v
    }
}

/// The settings of both PWM slices for one set of motor throttles.
#[derive(Debug, Clone, Copy, PartialEq, Eq, Structural)]
pub struct SliceConfigs {
    /// Slice 0: channel A front-left, channel B front-right.
    pub slice0: PwmConfig,
    /// Slice 1: channel A back-left, channel B back-right.
    pub slice1: PwmConfig,
}

/// The slice settings for throttles `fl`, `fr`, `bl`, `br`: the ESC settings
/// with each channel's compare value set to its clamped throttle.
pub open spec fn spec_throttle_configs(fl: u16, fr: u16, bl: u16, br: u16) -> SliceConfigs {
    SliceConfigs {
        slice0: PwmConfig {
            compare_a: throttle_of(fl),
            compare_b: throttle_of(fr),
            ..spec_esc_pwm_config()
        },
        slice1: PwmConfig {
            compare_a: throttle_of(bl),
            compare_b: throttle_of(br),
            ..spec_esc_pwm_config()
        },
    }
}

/// Computes the slice settings that set individual throttle values for all
/// four motors. Values are pulse widths in microseconds (1000 = off,
/// 2000 = full) and are clamped to that range.
pub fn throttle_configs(fl: u16, fr: u16, bl: u16, br: u16) -> (configs: SliceConfigs)
    ensures
        configs == spec_throttle_configs(fl, fr, bl, br),
        configs.slice0.divider_bits == ESC_DIVIDER_BITS,
        configs.slice1.divider_bits == ESC_DIVIDER_BITS,
        configs.slice0.top == ESC_TOP,
        configs.slice1.top == ESC_TOP,
        configs.slice0.compare_a == throttle_of(fl),
        configs.slice0.compare_b == throttle_of(fr),
        configs.slice1.compare_a == throttle_of(bl),
        configs.slice1.compare_b == throttle_of(br),
{
    let fl = clamp_throttle(fl);
    let fr = clamp_throttle(fr);
    let bl = clamp_throttle(bl);
    let br = clamp_throttle(br);

    let mut config0 = esc_pwm_config();
    config0.compare_a = fl;
    config0.compare_b = fr;

    let mut config1 = esc_pwm_config();
    config1.compare_a = bl;
    config1.compare_b = br;

    SliceConfigs { slice0: config0, slice1: config1 }
}

/// Setting minimum throttle on all four motors (arming and disarming) gives
/// back exactly the ESC settings on both slices.
pub proof fn lemma_min_throttle_is_esc_config()
    ensures
        spec_throttle_configs(ESC_MIN, ESC_MIN, ESC_MIN, ESC_MIN) == (SliceConfigs {
            slice0: spec_esc_pwm_config(),
            slice1: spec_esc_pwm_config(),
        }),
{
}

/// Every channel's pulse lies within the ESC range and ends before the frame
/// wraps, whatever throttles are asked for; throttles already within the
/// range are passed through unchanged.
pub proof fn lemma_throttle_configs_within_frame(fl: u16, fr: u16, bl: u16, br: u16)
    ensures
        ({
            let c = spec_throttle_configs(fl, fr, bl, br);
            &&& ESC_MIN <= c.slice0.compare_a <= ESC_MAX
            &&& ESC_MIN <= c.slice0.compare_b <= ESC_MAX
            &&& ESC_MIN <= c.slice1.compare_a <= ESC_MAX
            &&& ESC_MIN <= c.slice1.compare_b <= ESC_MAX
            &&& c.slice0.compare_a < c.slice0.top && c.slice0.compare_b < c.slice0.top
            &&& c.slice1.compare_a < c.slice1.top && c.slice1.compare_b < c.slice1.top
            &&& ESC_MIN <= fl <= ESC_MAX ==> c.slice0.compare_a == fl
            &&& ESC_MIN <= fr <= ESC_MAX ==> c.slice0.compare_b == fr
            &&& ESC_MIN <= bl <= ESC_MAX ==> c.slice1.compare_a == bl
            &&& ESC_MIN <= br <= ESC_MAX ==> c.slice1.compare_b == br
        }),
{
}

/// Clamping twice is clamping once: throttles that were already clamped
/// give the same settings.
pub proof fn lemma_throttle_configs_idempotent(fl: u16, fr: u16, bl: u16, br: u16)
    ensures
        spec_throttle_configs(throttle_of(fl), throttle_of(fr), throttle_of(bl), throttle_of(br))
            == spec_throttle_configs(fl, fr, bl, br),
{
}

/// The mixer's outputs reach the ESCs unchanged when the mixed commands are
/// numbers; a command that is not a number (pulse 0) reaches its ESC as
/// minimum throttle.
pub proof fn lemma_mixed_outputs_reach_escs(
    fl: Option<i32>,
    fr: Option<i32>,
    bl: Option<i32>,
    br: Option<i32>,
)
    ensures
        ({
            let out = MotorOutputs::spec_from_mixed(fl, fr, bl, br);
            let c = spec_throttle_configs(out.fl, out.fr, out.bl, out.br);
            &&& fl is Some ==> c.slice0.compare_a == out.fl
            &&& fr is Some ==> c.slice0.compare_b == out.fr
            &&& bl is Some ==> c.slice1.compare_a == out.bl
            &&& br is Some ==> c.slice1.compare_b == out.br
            &&& fl is None ==> c.slice0.compare_a == ESC_MIN
            &&& fr is None ==> c.slice0.compare_b == ESC_MIN
            &&& bl is None ==> c.slice1.compare_a == ESC_MIN
            &&& br is None ==> c.slice1.compare_b == ESC_MIN
        }),
{
}

/// Whatever throttles are asked for, both slices keep the ESC timing (the
/// divider 125.0 for a 1 MHz counter and the 20000-tick frame), and each
/// channel carries its own motor's throttle: 1000 us below the range, 2000 us
/// above it, and the throttle itself within it.
pub proof fn lemma_throttle_configs_per_channel(fl: u16, fr: u16, bl: u16, br: u16)
    ensures
        ({
            let c = spec_throttle_configs(fl, fr, bl, br);
            &&& c.slice0.divider_bits == 2000 && c.slice1.divider_bits == 2000
            &&& c.slice0.top == 20000 && c.slice1.top == 20000
            &&& c.slice0.counter_hz() == 1_000_000 && c.slice1.counter_hz() == 1_000_000
            &&& fl < 1000 ==> c.slice0.compare_a == 1000
            &&& fl > 2000 ==> c.slice0.compare_a == 2000
            &&& 1000 <= fl <= 2000 ==> c.slice0.compare_a == fl
            &&& fr < 1000 ==> c.slice0.compare_b == 1000
            &&& fr > 2000 ==> c.slice0.compare_b == 2000
            &&& 1000 <= fr <= 2000 ==> c.slice0.compare_b == fr
            &&& bl < 1000 ==> c.slice1.compare_a == 1000
            &&& bl > 2000 ==> c.slice1.compare_a == 2000
            &&& 1000 <= bl <= 2000 ==> c.slice1.compare_a == bl
            &&& br < 1000 ==> c.slice1.compare_b == 1000
            &&& br > 2000 ==> c.slice1.compare_b == 2000
            &&& 1000 <= br <= 2000 ==> c.slice1.compare_b == br
        }),
{
}

} // verus!
