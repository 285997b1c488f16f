use vstd::prelude::*;

verus! {

/// Start bit sent (SB), in the first status register.
pub const STAR1_SB: u16 = 0x0001;

/// Address sent and matched (ADDR).
pub const STAR1_ADDR: u16 = 0x0002;

/// Byte transfer finished (BTF).
pub const STAR1_BTF: u16 = 0x0004;

/// Receive buffer not empty (RxNE).
pub const STAR1_RXNE: u16 = 0x0040;

/// Transmit buffer empty (TxE).
pub const STAR1_TXE: u16 = 0x0080;

/// Bus error (BERR).
pub const STAR1_BERR: u16 = 0x0100;

/// Arbitration lost (ARLO).
pub const STAR1_ARLO: u16 = 0x0200;

/// Acknowledge failure (AF).
pub const STAR1_AF: u16 = 0x0400;

/// Overrun (OVR).
pub const STAR1_OVR: u16 = 0x0800;

/// Master mode selected (MSL), in the second status register.
pub const STAR2_MSL: u16 = 0x0001;

/// Bus busy (BUSY).
pub const STAR2_BUSY: u16 = 0x0002;

/// Transmitter mode (TRA).
pub const STAR2_TRA: u16 = 0x0004;

/// Whether the bits of `mask` are set in a register value.
pub open spec fn flag(reg: u16, mask: u16) -> bool {
    reg & mask != 0
}

/// One register-level command issued to the bus controller or to the shared
/// clock, reset and multiplexer blocks.
#[derive(Debug, Clone, Copy, PartialEq, Eq, Structural)]
pub enum Op {
    /// Open the peripheral's clock gate.
    EnableClock,
    /// Pulse the peripheral's reset line: its registers return to defaults.
    ResetPeripheral,
    /// Open the clock gate of the pin-multiplexer block.
    EnableAfio,
    /// Set the software-reset bit.
    SetSoftwareReset,
    /// Clear the software-reset bit.
    ClearSoftwareReset,
    /// Program the two remap bits of this bus in the shared remap register.
    Remap { high: bool, low: bool },
    /// Program the input-clock frequency field (MHz).
    SetFreq(u8),
    /// Program divider, fast-mode flag and duty-cycle bit.
    SetClockControl { ccr: u16, fast: bool, duty: bool },
    /// Set the peripheral-enable bit.
    SetEnable,
    /// Clear the peripheral-enable bit.
    ClearEnable,
    /// Set the acknowledge-enable bit.
    SetAck,
    /// Request a start condition.
    SetStart,
    /// Request a stop condition.
    SetStop,
    /// Write one byte into the data register.
    WriteData(u8),
}

/// What the controller's configuration registers hold, as far as the
/// commands above set them.
pub struct RegState {
    pub clock_enabled: bool,
    pub afio_enabled: bool,
    pub software_reset: bool,
    pub remap: (bool, bool),
    pub freq: u8,
    pub ccr: u16,
    pub fast: bool,
    pub duty: bool,
    pub enabled: bool,
    pub ack: bool,
    pub start: bool,
    pub stop: bool,
    pub data: u8,
}

/// Register contents right after a reset of the peripheral; what lies
/// outside the peripheral (clock gates, remap bits) is kept.
pub open spec fn reset_state(s: RegState) -> RegState {
    RegState {
        clock_enabled: s.clock_enabled,
        afio_enabled: s.afio_enabled,
        software_reset: false,
        remap: s.remap,
        freq: 0,
        ccr: 0,
        fast: false,
        duty: false,
        enabled: false,
        ack: false,
        start: false,
        stop: false,
        data: 0,
    }
}

/// The effect of one command on the registers.
pub open spec fn apply_op(s: RegState, op: Op) -> RegState {
    match op {
        Op::EnableClock => RegState { clock_enabled: true, ..s },
        Op::ResetPeripheral => reset_state(s),
        Op::EnableAfio => RegState { afio_enabled: true, ..s },
        Op::SetSoftwareReset => RegState { software_reset: true, ..s },
        Op::ClearSoftwareReset => RegState { software_reset: false, ..s },
        Op::Remap { high, low } => RegState { remap: (high, low), ..s },
        Op::SetFreq(f) => RegState { freq: f, ..s },
        Op::SetClockControl { ccr, fast, duty } => RegState { ccr, fast, duty, ..s },
        Op::SetEnable => RegState { enabled: true, ..s },
        Op::ClearEnable => RegState { enabled: false, ..s },
        Op::SetAck => RegState { ack: true, ..s },
        Op::SetStart => RegState { start: true, ..s },
        Op::SetStop => RegState { stop: true, ..s },
        Op::WriteData(b) => RegState { data: b, ..s },
    }
}

/// The effect of a sequence of commands, issued in order.
pub open spec fn apply_ops(s: RegState, ops: Seq<Op>) -> RegState
    decreases ops.len(),
{
    if ops.len() == 0 {
        s
    } else {
        apply_op(apply_ops(s, ops.drop_last()), ops.last())
    }
}

} // verus!
