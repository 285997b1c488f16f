use vstd::prelude::*;

use crate::i2c::{
    addr_byte, commands, data_steps, error_of, read_steps, receive_steps, receives, open_ops,
    release_ops, write_steps, Error, Step,
};
use crate::regs::{apply_ops, flag, Op, RegState, STAR1_AF, STAR1_BERR};
use crate::transfer::status_step;
use crate::timing::{resolve_spec, DutyCycle, I2cConfig, ResolvedTiming, MAX_PCLK_HZ, MIN_PCLK_HZ};

verus! {

proof fn lemma_commands_append(a: Seq<Step>, b: Seq<Step>)
    ensures
        commands(a + b) == commands(a) + commands(b),
        receives(a + b) == receives(a) + receives(b),
    decreases b.len(),
{
    if b.len() == 0 {
        assert(a + b =~= a);
        assert(commands(a) + commands(b) =~= commands(a));
        assert(receives(a) + receives(b) =~= receives(a));
    } else {
        lemma_commands_append(a, b.drop_last());
        assert((a + b).drop_last() =~= a + b.drop_last());
        assert((a + b).last() == b.last());
        match b.last() {
            Step::Issue(op) => {
                assert(commands(a) + commands(b.drop_last()).push(op) =~= (commands(a)
                    + commands(b.drop_last())).push(op));
            },
            Step::Receive(i) => {
                assert(receives(a) + receives(b.drop_last()).push(i) =~= (receives(a)
                    + receives(b.drop_last())).push(i));
            },
            _ => {},
        }
    }
}

proof fn lemma_data_steps(bytes: Seq<u8>)
    ensures
        commands(data_steps(bytes)) == bytes.map_values(|b: u8| Op::WriteData(b)),
        receives(data_steps(bytes)) == Seq::<usize>::empty(),
        forall|i: int| 0 <= i < data_steps(bytes).len() ==> data_steps(bytes)[i] != Step::CheckError,
    decreases bytes.len(),
{
    if bytes.len() == 0 {
        assert(bytes.map_values(|b: u8| Op::WriteData(b)) =~= Seq::empty());
    } else {
        let tail = seq![Step::WaitWhile(crate::i2c::Wait::TxEmpty), Step::Issue(Op::WriteData(bytes.last()))];
        lemma_data_steps(bytes.drop_last());
        lemma_commands_append(data_steps(bytes.drop_last()), tail);
        reveal_with_fuel(commands, 3);
        reveal_with_fuel(receives, 3);
        assert(tail.drop_last().drop_last() =~= Seq::<Step>::empty());
        assert(tail.drop_last() =~= seq![Step::WaitWhile(crate::i2c::Wait::TxEmpty)]);
        assert(commands(tail) =~= seq![Op::WriteData(bytes.last())]);
        assert(receives(tail) =~= Seq::<usize>::empty());
        assert(bytes.map_values(|b: u8| Op::WriteData(b)) =~= bytes.drop_last().map_values(
            |b: u8| Op::WriteData(b),
        ) + seq![Op::WriteData(bytes.last())]);
    }
}

proof fn lemma_receive_steps(n: nat)
    ensures
        commands(receive_steps(n)) == Seq::<Op>::empty(),
        receives(receive_steps(n)) == Seq::new(n, |i: int| i as usize),
        forall|i: int| 0 <= i < receive_steps(n).len() ==> receive_steps(n)[i] != Step::CheckError,
    decreases n,
{
    if n == 0 {
        assert(Seq::new(n, |i: int| i as usize) =~= Seq::<usize>::empty());
    } else {
        let m = (n - 1) as nat;
        let tail = seq![Step::WaitWhile(crate::i2c::Wait::RxNotEmpty), Step::Receive(m as usize)];
        lemma_receive_steps(m);
        lemma_commands_append(receive_steps(m), tail);
        reveal_with_fuel(commands, 3);
        reveal_with_fuel(receives, 3);
        assert(tail.drop_last().drop_last() =~= Seq::<Step>::empty());
        assert(tail.drop_last() =~= seq![Step::WaitWhile(crate::i2c::Wait::RxNotEmpty)]);
        assert(commands(tail) =~= Seq::<Op>::empty());
        assert(receives(tail) =~= seq![m as usize]);
        assert(Seq::new(n, |i: int| i as usize) =~= Seq::new(m, |i: int| i as usize) + seq![
            m as usize,
        ]);
    }
}

/// A write of `bytes` issues exactly one start, the address byte with the
/// write bit clear, every byte once and in order, and one stop; it fills no
/// buffer slot.
pub proof fn write_issues_start_address_data_stop(address: u8, bytes: Seq<u8>)
    ensures
        commands(write_steps(address, bytes)) == seq![
            Op::SetStart,
            Op::WriteData(addr_byte(address, false)),
        ] + bytes.map_values(|b: u8| Op::WriteData(b)) + seq![Op::SetStop],
        receives(write_steps(address, bytes)) == Seq::<usize>::empty(),
{
    let head = crate::i2c::start_steps(address, false) + seq![
        Step::WaitWhile(crate::i2c::Wait::AddressSentWrite),
    ];
    let tail = seq![
        Step::WaitWhile(crate::i2c::Wait::TransferFinished),
        Step::Issue(Op::SetStop),
        Step::CheckError,
    ];
    lemma_data_steps(bytes);
    lemma_commands_append(head, data_steps(bytes));
    lemma_commands_append(head + data_steps(bytes), tail);
    reveal_with_fuel(commands, 6);
    reveal_with_fuel(receives, 6);
    assert(head.drop_last().drop_last().drop_last().drop_last().drop_last() =~= Seq::<Step>::empty());
    assert(commands(head) =~= seq![Op::SetStart, Op::WriteData(addr_byte(address, false))]);
    assert(receives(head) =~= Seq::<usize>::empty());
    assert(tail.drop_last().drop_last().drop_last() =~= Seq::<Step>::empty());
    assert(commands(tail) =~= seq![Op::SetStop]);
    assert(receives(tail) =~= Seq::<usize>::empty());
    assert(write_steps(address, bytes) == head + data_steps(bytes) + tail);
}

/// A read into `n` bytes issues exactly one start, the address byte with
/// the read bit set, and one stop, and fills the slots 0..n once each, in
/// order.
pub proof fn read_issues_start_address_stop(address: u8, n: nat)
    ensures
        commands(read_steps(address, n)) == seq![
            Op::SetStart,
            Op::WriteData(addr_byte(address, true)),
            Op::SetStop,
        ],
        receives(read_steps(address, n)) == Seq::new(n, |i: int| i as usize),
{
    let head = crate::i2c::start_steps(address, true) + seq![
        Step::WaitWhile(crate::i2c::Wait::AddressSentRead),
    ];
    let tail = seq![Step::Issue(Op::SetStop), Step::CheckError];
    lemma_receive_steps(n);
    lemma_commands_append(head, receive_steps(n));
    lemma_commands_append(head + receive_steps(n), tail);
    reveal_with_fuel(commands, 6);
    reveal_with_fuel(receives, 6);
    assert(head.drop_last().drop_last().drop_last().drop_last().drop_last() =~= Seq::<Step>::empty());
    assert(commands(head) =~= seq![Op::SetStart, Op::WriteData(addr_byte(address, true))]);
    assert(receives(head) =~= Seq::<usize>::empty());
    assert(tail.drop_last().drop_last() =~= Seq::<Step>::empty());
    assert(commands(tail) =~= seq![Op::SetStop]);
    assert(receives(tail) =~= Seq::<usize>::empty());
    assert(read_steps(address, n) == head + receive_steps(n) + tail);
    assert(seq![Op::SetStart, Op::WriteData(addr_byte(address, true))] + Seq::<Op>::empty()
        + seq![Op::SetStop] =~= seq![
        Op::SetStart,
        Op::WriteData(addr_byte(address, true)),
        Op::SetStop,
    ]);
    assert(Seq::<usize>::empty() + Seq::new(n, |i: int| i as usize) + Seq::<usize>::empty()
        =~= Seq::new(n, |i: int| i as usize));
}

/// A write followed by a read is the write's complete program, then the
/// read's complete program; the write's error check is the first one, so
/// an error it reports ends the sequence before the read starts.
pub proof fn write_read_is_write_then_read(address: u8, bytes: Seq<u8>, n: nat)
    ensures
        ({
            let w = write_steps(address, bytes);
            let s = w + read_steps(address, n);
            &&& s.subrange(0, w.len() as int) == w
            &&& s.subrange(w.len() as int, s.len() as int) == read_steps(address, n)
            &&& s[w.len() - 1] == Step::CheckError
            &&& forall|i: int| 0 <= i < w.len() - 1 ==> s[i] != Step::CheckError
        }),
{
    let w = write_steps(address, bytes);
    let s = w + read_steps(address, n);
    let head = crate::i2c::start_steps(address, false) + seq![
        Step::WaitWhile(crate::i2c::Wait::AddressSentWrite),
    ];
    let d = data_steps(bytes);
    lemma_data_steps(bytes);
    assert(s.subrange(0, w.len() as int) =~= w);
    assert(s.subrange(w.len() as int, s.len() as int) =~= read_steps(address, n));
    assert forall|i: int| 0 <= i < w.len() - 1 implies s[i] != Step::CheckError by {
        assert(s[i] == w[i]);
        if i < head.len() {
            assert(w[i] == head[i]);
        } else if i < head.len() + d.len() {
            assert(w[i] == d[i - head.len()]);
        } else {
            assert(w[i] == seq![
                Step::WaitWhile(crate::i2c::Wait::TransferFinished),
                Step::Issue(Op::SetStop),
                Step::CheckError,
            ][i - head.len() - d.len()]);
        }
    }
}

/// In a write followed by a read, an error reported by the write's check
/// ends the whole program at once: no step of the read is carried out.
pub proof fn failed_write_skips_read(address: u8, bytes: Seq<u8>, n: nat, s1: u16, s2: u16)
    requires
        error_of(s1) is Err,
    ensures
        ({
            let w = write_steps(address, bytes);
            let s = w + read_steps(address, n);
            status_step(s, (w.len() - 1) as nat, s1, s2) == (s.len(), Some(error_of(s1)))
        }),
{
    write_read_is_write_then_read(address, bytes, n);
}

/// When the bus-error flag is set, the error reported is a bus error,
/// whatever else is set (acknowledge failure included).
pub proof fn bus_error_takes_priority(s1: u16)
    requires
        flag(s1, STAR1_BERR),
    ensures
        error_of(s1) == Err::<(), Error>(Error::BusError),
        flag(s1, STAR1_AF) ==> error_of(s1) == Err::<(), Error>(Error::BusError),
{
}

/// The timing resolved from a clock and a configuration is the same on
/// every call with those two values.
pub proof fn resolve_is_repeatable(pclk_hz: u32, config: I2cConfig, r1: ResolvedTiming, r2: ResolvedTiming)
    requires
        config.speed > 0,
        r1 == resolve_spec(pclk_hz, config),
        r2 == resolve_spec(pclk_hz, config),
    ensures
        r1 == r2,
        r1.fast_mode == (config.speed > 100_000),
        r1.duty_bit == (config.duty == DutyCycle::Perc36),
{
}

/// Below 2 MHz the clock resolves as 2 MHz does; above 36 MHz as 36 MHz does.
pub proof fn resolve_clamps_pclk(pclk_hz: u32, config: I2cConfig)
    requires
        config.speed > 0,
    ensures
        pclk_hz < MIN_PCLK_HZ ==> resolve_spec(pclk_hz, config) == resolve_spec(MIN_PCLK_HZ, config),
        pclk_hz > MAX_PCLK_HZ ==> resolve_spec(pclk_hz, config) == resolve_spec(MAX_PCLK_HZ, config),
{
}

/// Opening the peripheral leaves its registers in a state that depends on
/// the configuration alone: after a release, re-opening with the same pin
/// pair, clock and configuration gives what a first open gives from any
/// starting state.
pub proof fn reopen_matches_first_open(
    used: RegState,
    fresh: RegState,
    remap: (bool, bool),
    pclk_hz: u32,
    config: I2cConfig,
)
    requires
        config.speed > 0,
    ensures
        apply_ops(apply_ops(used, release_ops()), open_ops(remap, pclk_hz, config)) == apply_ops(
            fresh,
            open_ops(remap, pclk_hz, config),
        ),
{
    reveal_with_fuel(apply_ops, 11);
    let ops = open_ops(remap, pclk_hz, config);
    assert(ops.drop_last().drop_last().drop_last().drop_last().drop_last().drop_last().drop_last().drop_last().drop_last().drop_last() =~= Seq::<Op>::empty());
    assert(release_ops().drop_last() =~= Seq::<Op>::empty());
}

} // verus!
