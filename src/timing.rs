use vstd::prelude::*;

verus! {

/// Lowest peripheral input clock the controller accepts, in Hz.
pub const MIN_PCLK_HZ: u32 = 2_000_000;

/// Highest peripheral input clock the controller accepts, in Hz.
pub const MAX_PCLK_HZ: u32 = 36_000_000;

/// Fastest bus speed that still counts as standard mode, in Hz.
pub const STANDARD_MODE_MAX_HZ: u32 = 100_000;

/// Low/high duty cycle of the bus clock in fast mode (above 100 kHz).
#[derive(Debug, Clone, Copy, PartialEq, Eq, Structural)]
pub enum DutyCycle {
    /// 33%
    Perc33,
    /// 36%
    Perc36,
}

/// Bus configuration: target speed in Hz and fast-mode duty cycle.
#[derive(Debug, Clone, Copy, PartialEq, Eq, Structural)]
pub struct I2cConfig {
    pub speed: u32,
    pub duty: DutyCycle,
}

/// Values programmed into the clock registers for one configuration.
#[derive(Debug, Clone, Copy, PartialEq, Eq, Structural)]
pub struct ResolvedTiming {
    /// Peripheral input clock in whole MHz (the frequency field).
    pub freq_mhz: u8,
    /// Clock divider.
    pub divider: u32,
    /// Fast-mode flag.
    pub fast_mode: bool,
    /// Duty-cycle selection bit (set for 36%).
    pub duty_bit: bool,
}

/// The peripheral clock, clamped to the accepted input range.
pub open spec fn clamp_pclk(pclk_hz: u32) -> int {
    if pclk_hz < MIN_PCLK_HZ {
        MIN_PCLK_HZ as int
    } else if pclk_hz > MAX_PCLK_HZ {
        MAX_PCLK_HZ as int
    } else {
        pclk_hz as int
    }
}

pub open spec fn is_fast_mode(config: I2cConfig) -> bool {
    config.speed > STANDARD_MODE_MAX_HZ
}

/// How many periods of the target speed one divider step spans.
pub open spec fn divider_factor(config: I2cConfig) -> int {
    if !is_fast_mode(config) {
        2
    } else if config.duty == DutyCycle::Perc33 {
        3
    } else {
        25
    }
}

/// The timing a configuration resolves to on a given peripheral clock.
pub open spec fn resolve_spec(pclk_hz: u32, config: I2cConfig) -> ResolvedTiming
    recommends
        config.speed > 0,
{
    ResolvedTiming {
        freq_mhz: (clamp_pclk(pclk_hz) / 1_000_000) as u8,
        divider: (clamp_pclk(pclk_hz) / (divider_factor(config) * config.speed)) as u32,
        fast_mode: is_fast_mode(config),
        duty_bit: config.duty == DutyCycle::Perc36,
    }
}

impl I2cConfig {
    /// 100 kbit/s, 33% duty cycle.
    pub fn slow_mode() -> (r: I2cConfig)
        ensures
            r.speed == 100_000,
            r.duty == DutyCycle::Perc33,
    {
        I2cConfig { speed: 100_000, duty: DutyCycle::Perc33 }
    }

    /// 400 kbit/s, 33% duty cycle.
    pub fn fast_mode() -> (r: I2cConfig)
        ensures
            r.speed == 400_000,
            r.duty == DutyCycle::Perc33,
    {
        I2cConfig { speed: 400_000, duty: DutyCycle::Perc33 }
    }

    /// 1 Mbit/s, 33% duty cycle.
    pub fn fast_mode_plus() -> (r: I2cConfig)
        ensures
            r.speed == 1_000_000,
            r.duty == DutyCycle::Perc33,
    {
        I2cConfig { speed: 1_000_000, duty: DutyCycle::Perc33 }
    }
}

/// 400 kHz, 33%.
impl Default for I2cConfig {
    fn default() -> (r: I2cConfig)
        ensures
            r.speed == 400_000,
            r.duty == DutyCycle::Perc33,
    {
        I2cConfig::fast_mode()
    }
}

/// Clamps the peripheral clock to 2..=36 MHz, then derives the frequency
/// field, the divider (truncating division), the fast-mode flag and the
/// duty-cycle bit.
pub fn resolve(pclk_hz: u32, config: I2cConfig) -> (r: ResolvedTiming)
    requires
        config.speed > 0,
    ensures
        r == resolve_spec(pclk_hz, config),
{
    let clk: u32 = if pclk_hz < MIN_PCLK_HZ {
        MIN_PCLK_HZ
    } else if pclk_hz > MAX_PCLK_HZ {
        MAX_PCLK_HZ
    } else {
        pclk_hz
    };
    let fast_mode = config.speed > STANDARD_MODE_MAX_HZ;
    let factor: u64 = if !fast_mode {
        2
    } else {
        match config.duty {
            DutyCycle::Perc33 => 3,
            DutyCycle::Perc36 => 25,
        }
    };
    let denom: u64 = factor * (config.speed as u64);
    let divider: u64 = (clk as u64) / denom;
    assert(divider <= clk as u64) by (nonlinear_arith)
        requires
            denom >= 1,
            divider == (clk as u64) / denom,
    ;
    let duty_bit = match config.duty {
        DutyCycle::Perc33 => false,
        DutyCycle::Perc36 => true,
    };
    ResolvedTiming {
        freq_mhz: (clk / 1_000_000) as u8,
        divider: divider as u32,
        fast_mode,
        duty_bit,
    }
}

} // verus!
