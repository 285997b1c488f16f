use vstd::prelude::*;

use crate::regs::{
    flag, Op, STAR1_ADDR, STAR1_AF, STAR1_ARLO, STAR1_BERR, STAR1_BTF, STAR1_OVR, STAR1_RXNE,
    STAR1_SB, STAR1_TXE, STAR2_BUSY, STAR2_MSL, STAR2_TRA,
};
use crate::timing::{resolve, resolve_spec, I2cConfig};

verus! {

/// A failed transaction, classified from the latched status flags.
#[derive(Debug, Clone, Copy, PartialEq, Eq, Structural)]
pub enum Error {
    BusError,
    AcknowledgeFailure,
    ArbitrationLost,
    Overrun,
}

/// Valid combinations of SCL and SDA pins for the multiplexed bus.
pub trait I2C1Pair {
    /// High and low remap bits (I2C1REMAP1 and I2C1_RM) of this pin pair.
    spec fn spec_remap_bits() -> (bool, bool);

    fn remap_bits() -> (r: (bool, bool))
        ensures
            r == Self::spec_remap_bits(),
    ;
}

/// A condition polled on both status registers; the engine waits while it
/// holds.
#[derive(Debug, Clone, Copy, PartialEq, Eq, Structural)]
pub enum Wait {
    /// Bus busy.
    Idle,
    /// Start bit not yet sent, or not yet busy master.
    StartSent,
    /// Address not yet acknowledged in transmitter mode.
    AddressSentWrite,
    /// Transmit buffer still full.
    TxEmpty,
    /// Last byte not yet shifted out.
    TransferFinished,
    /// Address not yet acknowledged in receiver mode.
    AddressSentRead,
    /// Nothing received yet.
    RxNotEmpty,
}

/// Whether the engine keeps waiting on `w`, given one paired read of the
/// first (`s1`) and second (`s2`) status registers.
pub open spec fn blocks(w: Wait, s1: u16, s2: u16) -> bool {
    let busy = flag(s2, STAR2_BUSY);
    let msl = flag(s2, STAR2_MSL);
    let tra = flag(s2, STAR2_TRA);
    match w {
        Wait::Idle => busy,
        Wait::StartSent => !flag(s1, STAR1_SB) || !busy || !msl,
        Wait::AddressSentWrite => !flag(s1, STAR1_ADDR) || !flag(s1, STAR1_TXE) || !busy || !msl
            || !tra,
        Wait::TxEmpty => !flag(s1, STAR1_TXE),
        Wait::TransferFinished => !flag(s1, STAR1_BTF) || !flag(s1, STAR1_TXE) || !busy || !msl
            || !tra,
        Wait::AddressSentRead => !flag(s1, STAR1_ADDR) || !busy || !msl,
        Wait::RxNotEmpty => !flag(s1, STAR1_RXNE) || !msl || !busy,
    }
}

/// The outcome of a transaction whose first status register reads `s1`:
/// bus error before acknowledge failure before arbitration loss before
/// overrun.
pub open spec fn error_of(s1: u16) -> Result<(), Error> {
    if flag(s1, STAR1_BERR) {
        Err(Error::BusError)
    } else if flag(s1, STAR1_AF) {
        Err(Error::AcknowledgeFailure)
    } else if flag(s1, STAR1_ARLO) {
        Err(Error::ArbitrationLost)
    } else if flag(s1, STAR1_OVR) {
        Err(Error::Overrun)
    } else {
        Ok(())
    }
}

/// One step of a transaction program.
#[derive(Debug, Clone, Copy, PartialEq, Eq, Structural)]
pub enum Step {
    /// Poll both status registers until the condition no longer holds.
    WaitWhile(Wait),
    /// Issue a register command.
    Issue(Op),
    /// Read the data register into this slot of the destination buffer.
    Receive(usize),
    /// Read the first status register once; end the program with the
    /// error it reports, if any.
    CheckError,
}

/// The address byte: the 7-bit address shifted left, with the read bit.
pub open spec fn addr_byte(address: u8, read: bool) -> u8 {
    ((address % 128) * 2 + if read { 1int } else { 0int }) as u8
}

/// The opening of every transaction: wait for an idle bus, start, wait for
/// master mode, send the address byte.
pub open spec fn start_steps(address: u8, read: bool) -> Seq<Step> {
    seq![
        Step::WaitWhile(Wait::Idle),
        Step::Issue(Op::SetStart),
        Step::WaitWhile(Wait::StartSent),
        Step::Issue(Op::WriteData(addr_byte(address, read))),
    ]
}

/// For each byte: wait for an empty transmit buffer, then write the byte.
pub open spec fn data_steps(bytes: Seq<u8>) -> Seq<Step>
    decreases bytes.len(),
{
    if bytes.len() == 0 {
        Seq::empty()
    } else {
        data_steps(bytes.drop_last()) + seq![
            Step::WaitWhile(Wait::TxEmpty),
            Step::Issue(Op::WriteData(bytes.last())),
        ]
    }
}

/// For each slot 0..n: wait for a received byte, then store it.
pub open spec fn receive_steps(n: nat) -> Seq<Step>
    decreases n,
{
    if n == 0 {
        Seq::empty()
    } else {
        receive_steps((n - 1) as nat) + seq![
            Step::WaitWhile(Wait::RxNotEmpty),
            Step::Receive((n - 1) as usize),
        ]
    }
}

/// The complete program of a write transaction.
pub open spec fn write_steps(address: u8, bytes: Seq<u8>) -> Seq<Step> {
    start_steps(address, false) + seq![Step::WaitWhile(Wait::AddressSentWrite)] + data_steps(bytes)
        + seq![
        Step::WaitWhile(Wait::TransferFinished),
        Step::Issue(Op::SetStop),
        Step::CheckError,
    ]
}

/// The complete program of a read transaction into `n` bytes.
pub open spec fn read_steps(address: u8, n: nat) -> Seq<Step> {
    start_steps(address, true) + seq![Step::WaitWhile(Wait::AddressSentRead)] + receive_steps(n)
        + seq![Step::Issue(Op::SetStop), Step::CheckError]
}

/// The commands a program issues, in order.
pub open spec fn commands(steps: Seq<Step>) -> Seq<Op>
    decreases steps.len(),
{
    if steps.len() == 0 {
        Seq::empty()
    } else {
        let rest = commands(steps.drop_last());
        match steps.last() {
            Step::Issue(op) => rest.push(op),
            _ => rest,
        }
    }
}

/// The buffer slots a program fills, in order.
pub open spec fn receives(steps: Seq<Step>) -> Seq<usize>
    decreases steps.len(),
{
    if steps.len() == 0 {
        Seq::empty()
    } else {
        let rest = receives(steps.drop_last());
        match steps.last() {
            Step::Receive(i) => rest.push(i),
            _ => rest,
        }
    }
}

/// The commands that bring the peripheral up: clock gate and reset, the
/// multiplexer's clock gate, a software reset, remap bits, input clock,
/// timing, then enable followed by acknowledge-enable.
pub open spec fn open_ops(remap: (bool, bool), pclk_hz: u32, config: I2cConfig) -> Seq<Op>
    recommends
        config.speed > 0,
{
    let t = resolve_spec(pclk_hz, config);
    seq![
        Op::EnableClock,
        Op::ResetPeripheral,
        Op::EnableAfio,
        Op::SetSoftwareReset,
        Op::ClearSoftwareReset,
        Op::Remap { high: remap.0, low: remap.1 },
        Op::SetFreq(t.freq_mhz),
        Op::SetClockControl { ccr: t.divider as u16, fast: t.fast_mode, duty: t.duty_bit },
        Op::SetEnable,
        Op::SetAck,
    ]
}

/// The commands that take the peripheral down.
pub open spec fn release_ops() -> Seq<Op> {
    seq![Op::ClearEnable]
}

/// The bus master: owns the peripheral handle and the two pins.
pub struct I2c<P, Scl, Sda> {
    i2c: P,
    scl: Scl,
    sda: Sda,
}

impl<P, Scl, Sda> I2c<P, Scl, Sda> {
    /// The peripheral handle held.
    pub closed spec fn peripheral(&self) -> P {
        self.i2c
    }

    /// The SCL pin held.
    pub closed spec fn scl_pin(&self) -> Scl {
        self.scl
    }

    /// The SDA pin held.
    pub closed spec fn sda_pin(&self) -> Sda {
        self.sda
    }

    /// Borrows the peripheral, to carry out the commands and reads of a
    /// program on it.
    pub fn regs(&self) -> (r: &P)
        ensures
            *r == self.peripheral(),
    {
        &self.i2c
    }

    /// Takes the peripheral and a valid pin pair; returns the engine and the
    /// commands that initialise the peripheral on the given input clock.
    pub fn i2c1(i2c: P, scl: Scl, sda: Sda, config: I2cConfig, pclk_hz: u32) -> (r: (
        Self,
        Vec<Op>,
    )) where (Scl, Sda): I2C1Pair
        requires
            config.speed > 0,
        ensures
            r.0.peripheral() == i2c,
            r.0.scl_pin() == scl,
            r.0.sda_pin() == sda,
            r.1@ == open_ops(<(Scl, Sda) as I2C1Pair>::spec_remap_bits(), pclk_hz, config),
    {
        let remap = <(Scl, Sda) as I2C1Pair>::remap_bits();
        let t = resolve(pclk_hz, config);
        let ops = vec![
            Op::EnableClock,
            Op::ResetPeripheral,
            Op::EnableAfio,
            Op::SetSoftwareReset,
            Op::ClearSoftwareReset,
            Op::Remap { high: remap.0, low: remap.1 },
            Op::SetFreq(t.freq_mhz),
            Op::SetClockControl { ccr: t.divider as u16, fast: t.fast_mode, duty: t.duty_bit },
            Op::SetEnable,
            Op::SetAck,
        ];
        let r = I2c { i2c, scl, sda };
        assert(ops@ =~= open_ops(remap, pclk_hz, config));
        (r, ops)
    }

    /// Hands back the peripheral and the pins, with the command that
    /// disables the peripheral.
    pub fn release(self) -> (r: ((P, Scl, Sda), Vec<Op>))
        ensures
            r.0.0 == self.peripheral(),
            r.0.1 == self.scl_pin(),
            r.0.2 == self.sda_pin(),
            r.1@ == release_ops(),
    {
        let ops = vec![Op::ClearEnable];
        assert(ops@ =~= release_ops());
        ((self.i2c, self.scl, self.sda), ops)
    }

    /// One poll: whether to keep waiting on `w`, given the first and then
    /// the second status register read as a pair.
    pub fn wait_while(&self, w: Wait, s1: u16, s2: u16) -> (r: bool)
        ensures
            r == blocks(w, s1, s2),
    {
        let sb = s1 & STAR1_SB != 0;
        let addr = s1 & STAR1_ADDR != 0;
        let btf = s1 & STAR1_BTF != 0;
        let rxne = s1 & STAR1_RXNE != 0;
        let txe = s1 & STAR1_TXE != 0;
        let msl = s2 & STAR2_MSL != 0;
        let busy = s2 & STAR2_BUSY != 0;
        let tra = s2 & STAR2_TRA != 0;
        match w {
            Wait::Idle => busy,
            Wait::StartSent => !sb || !busy || !msl,
            Wait::AddressSentWrite => !addr || !txe || !busy || !msl || !tra,
            Wait::TxEmpty => !txe,
            Wait::TransferFinished => !btf || !txe || !busy || !msl || !tra,
            Wait::AddressSentRead => !addr || !busy || !msl,
            Wait::RxNotEmpty => !rxne || !msl || !busy,
        }
    }

    /// Classifies the error flags of the first status register.
    pub fn check_error(&self, s1: u16) -> (r: Result<(), Error>)
        ensures
            r == error_of(s1),
    {
        if s1 & STAR1_BERR != 0 {
            Err(Error::BusError)
        } else if s1 & STAR1_AF != 0 {
            Err(Error::AcknowledgeFailure)
        } else if s1 & STAR1_ARLO != 0 {
            Err(Error::ArbitrationLost)
        } else if s1 & STAR1_OVR != 0 {
            Err(Error::Overrun)
        } else {
            Ok(())
        }
    }
    /// Appends the opening steps of a transaction to `v`.
    fn push_start(v: &mut Vec<Step>, address: u8, read: bool)
        ensures
            final(v)@ == old(v)@ + start_steps(address, read),
    {
        let a: u8 = if read {
            (address % 128) * 2 + 1
        } else {
            (address % 128) * 2
        };
        v.push(Step::WaitWhile(Wait::Idle));
        v.push(Step::Issue(Op::SetStart));
        v.push(Step::WaitWhile(Wait::StartSent));
        v.push(Step::Issue(Op::WriteData(a)));
        assert(final(v)@ =~= old(v)@ + start_steps(address, read));
    }

    /// The program of a write transaction: start, address with the write
    /// bit, each byte once the transmit buffer is empty, wait for the last
    /// byte to leave, stop, then the error check.
    pub fn write(&self, address: u8, bytes: &[u8]) -> (r: Vec<Step>)
        ensures
            r@ == write_steps(address, bytes@),
    {
        let mut v: Vec<Step> = Vec::new();
        Self::push_start(&mut v, address, false);
        v.push(Step::WaitWhile(Wait::AddressSentWrite));
        let ghost head = v@;
        let mut i: usize = 0;
        while i < bytes.len()
            invariant
                i <= bytes@.len(),
                v@ == head + data_steps(bytes@.take(i as int)),
            decreases bytes@.len() - i,
        {
            v.push(Step::WaitWhile(Wait::TxEmpty));
            v.push(Step::Issue(Op::WriteData(bytes[i])));
            proof {
                assert(bytes@.take(i as int + 1).drop_last() =~= bytes@.take(i as int));
                assert(v@ =~= head + data_steps(bytes@.take(i as int + 1)));
            }
            i = i + 1;
        }
        assert(bytes@.take(bytes@.len() as int) =~= bytes@);
        v.push(Step::WaitWhile(Wait::TransferFinished));
        v.push(Step::Issue(Op::SetStop));
        v.push(Step::CheckError);
        assert(v@ =~= write_steps(address, bytes@));
        v
    }

    /// The program of a read transaction into `len` bytes: start, address
    /// with the read bit, each slot in order once a byte has arrived, stop,
    /// then the error check.
    pub fn read(&self, address: u8, len: usize) -> (r: Vec<Step>)
        ensures
            r@ == read_steps(address, len as nat),
    {
        let mut v: Vec<Step> = Vec::new();
        Self::push_start(&mut v, address, true);
        v.push(Step::WaitWhile(Wait::AddressSentRead));
        let ghost head = v@;
        let mut i: usize = 0;
        while i < len
            invariant
                i <= len,
                v@ == head + receive_steps(i as nat),
            decreases len - i,
        {
            v.push(Step::WaitWhile(Wait::RxNotEmpty));
            v.push(Step::Receive(i));
            assert(v@ =~= head + receive_steps(i as nat + 1));
            i = i + 1;
        }
        v.push(Step::Issue(Op::SetStop));
        v.push(Step::CheckError);
        assert(v@ =~= read_steps(address, len as nat));
        v
    }

    /// The program of a write followed by a read: two complete transactions;
    /// the write's error check ends the program before the read starts.
    pub fn write_read(&self, address: u8, bytes: &[u8], len: usize) -> (r: Vec<Step>)
        ensures
            r@ == write_steps(address, bytes@) + read_steps(address, len as nat),
    {
        let mut v = self.write(address, bytes);
        let mut rd = self.read(address, len);
        v.append(&mut rd);
        v
    }
}

} // verus!
