//! Boot-time GPIO and peripheral register writes, as plain values.
//!
//! The functions here decide which register is read or written with which
//! value; the volatile accesses themselves are made by the code on the chip.
use vstd::prelude::*;

verus! {

/// Base address of GPIO port 0.
pub const P0_BASE: usize = 0x5000_0000;

/// Base address of GPIO port 1.
pub const P1_BASE: usize = 0x5000_0300;

/// Offset of the `OUT` register of a port.
pub const OUT_OFFSET: usize = 0x504;

/// Offset of the `OUTSET` register of a port.
pub const OUTSET_OFFSET: usize = 0x508;

/// Offset of the `OUTCLR` register of a port.
pub const OUTCLR_OFFSET: usize = 0x50C;

/// Offset of the `IN` register of a port.
pub const IN_OFFSET: usize = 0x510;

/// Offset of the first `PIN_CNF` register of a port.
pub const PIN_CNF_OFFSET: usize = 0x700;

/// `PIN_CNF.DIR = Output` (bit 0).
pub const CNF_DIR_OUTPUT: u32 = 1;

/// `PIN_CNF.INPUT = Disconnect` (bit 1).
pub const CNF_INPUT_DISCONNECT: u32 = 2;

/// `PIN_CNF.PULL = Pulldown` (bits 2..3 = 01).
pub const CNF_PULL_DOWN: u32 = 4;

/// `PIN_CNF.DRIVE = H0H1` (bits 8..10 = 011).
pub const CNF_DRIVE_H0H1: u32 = 0x300;

/// A 32-bit write to a memory mapped register.
#[derive(Debug, Clone, Copy, PartialEq, Eq, Structural)]
pub struct RegWrite {
    pub addr: usize,
    pub value: u32,
}

/// The base address of GPIO port `port` (0 or 1).
pub open spec fn spec_port_base(port: u8) -> usize {
    if port == 0 {
        P0_BASE
    } else {
        P1_BASE
    }
}

/// The base address of a GPIO port; only ports 0 and 1 exist.
pub fn port_base(port: u8) -> (b: usize)
    requires
        port <= 1,
    ensures
        b == spec_port_base(port),
{
    if port == 0 {
        P0_BASE
    } else {
        P1_BASE
    }
}

/// The address of the `PIN_CNF` register of a pin.
pub open spec fn spec_pin_cnf_addr(port: u8, pin: u8) -> int {
    spec_port_base(port) + PIN_CNF_OFFSET + 4 * pin
}

fn pin_cnf_write(port: u8, pin: u8, value: u32) -> (w: RegWrite)
    requires
        port <= 1,
    ensures
        w.addr == spec_pin_cnf_addr(port, pin),
        w.value == value,
{
    let base = port_base(port);
    RegWrite { addr: base + PIN_CNF_OFFSET + (pin as usize) * 4, value }
}

/// Configure a pin as input with internal pulldown (input connected, no
/// drive): the `PIN_CNF` write that does it.
pub fn pin_cfg_input_pulldown(port: u8, pin: u8) -> (w: RegWrite)
    requires
        port <= 1,
    ensures
        w.addr == spec_pin_cnf_addr(port, pin),
        w.value == CNF_PULL_DOWN,
{
    pin_cnf_write(port, pin, CNF_PULL_DOWN)
}

/// Configure a pin as disconnected (input buffer off, no drive, no pull).
pub fn pin_cfg_disconnect(port: u8, pin: u8) -> (w: RegWrite)
    requires
        port <= 1,
    ensures
        w.addr == spec_pin_cnf_addr(port, pin),
        w.value == CNF_INPUT_DISCONNECT,
{
    pin_cnf_write(port, pin, CNF_INPUT_DISCONNECT)
}

/// Configure a pin as output with high drive (H0H1), input disconnected, no pull.
pub fn pin_cfg_output_high_drive(port: u8, pin: u8) -> (w: RegWrite)
    requires
        port <= 1,
    ensures
        w.addr == spec_pin_cnf_addr(port, pin),
        w.value == (CNF_DIR_OUTPUT | CNF_INPUT_DISCONNECT | CNF_DRIVE_H0H1),
        w.value == 0x303,
{
    assert((CNF_DIR_OUTPUT | CNF_INPUT_DISCONNECT | CNF_DRIVE_H0H1) == 0x303u32) by (bit_vector);
    pin_cnf_write(port, pin, CNF_DIR_OUTPUT | CNF_INPUT_DISCONNECT | CNF_DRIVE_H0H1)
}

/// The address of the `IN` register of a port.
pub fn pin_in_register(port: u8) -> (a: usize)
    requires
        port <= 1,
    ensures
        a == spec_port_base(port) + IN_OFFSET,
{
    port_base(port) + IN_OFFSET
}

/// Whether bit `pin` of `v` is set.
pub open spec fn spec_bit_set(v: u32, pin: u8) -> bool {
    (v >> pin) & 1u32 == 1u32
}

/// Read a pin input level (HIGH = true) from the value `in_value` of its
/// port's `IN` register.
pub fn pin_read(port: u8, pin: u8, in_value: u32) -> (high: bool)
    requires
        port <= 1,
        pin < 32,
    ensures
        high == spec_bit_set(in_value, pin),
{
    let mask: u32 = 1u32 << pin;
    let r = (in_value & mask) != 0;
    assert(((in_value & (1u32 << pin)) != 0u32) == (((in_value >> pin) & 1u32) == 1u32))
        by (bit_vector)
        requires
            pin < 32u8,
    ;
    r
}

/// Drive an output pin high: the single-bit write to its port's `OUTSET`.
pub fn pin_set(port: u8, pin: u8) -> (w: RegWrite)
    requires
        port <= 1,
        pin < 32,
    ensures
        w.addr == spec_port_base(port) + OUTSET_OFFSET,
        w.value == 1u32 << pin,
{
    RegWrite { addr: port_base(port) + OUTSET_OFFSET, value: 1u32 << pin }
}

/// Drive an output pin low: the single-bit write to its port's `OUTCLR`.
pub fn pin_clear(port: u8, pin: u8) -> (w: RegWrite)
    requires
        port <= 1,
        pin < 32,
    ensures
        w.addr == spec_port_base(port) + OUTCLR_OFFSET,
        w.value == 1u32 << pin,
{
    RegWrite { addr: port_base(port) + OUTCLR_OFFSET, value: 1u32 << pin }
}

/// The `APPROTECT.DISABLE` register.
pub const APPROTECT_DISABLE_REG: usize = 0x4000_0558;

/// The value that unlocks the debug access port (`SwUnprotected`).
pub const APPROTECT_DISABLE_SW_UNPROTECTED: u32 = 0x0000_005A;

/// Unlock the debug access port on chips where the HAL's workaround does not
/// apply (nRF52840 build code AAD0): the write that does it.
pub fn approtect_disable_for_engd() -> (w: RegWrite)
    ensures
        w == (RegWrite { addr: APPROTECT_DISABLE_REG, value: APPROTECT_DISABLE_SW_UNPROTECTED }),
{
    RegWrite { addr: APPROTECT_DISABLE_REG, value: APPROTECT_DISABLE_SW_UNPROTECTED }
}

} // verus!

verus! {

/// Base address of UARTE0.
pub const UARTE0_BASE: usize = 0x4000_2000;

/// UARTE `TASKS_STOPRX` offset.
pub const TASKS_STOPRX: usize = 0x004;

/// UARTE `TASKS_STOPTX` offset.
pub const TASKS_STOPTX: usize = 0x00C;

/// UARTE `EVENTS_RXTO` offset.
pub const EVENTS_RXTO: usize = 0x114;

/// UARTE `EVENTS_TXSTOPPED` offset.
pub const EVENTS_TXSTOPPED: usize = 0x158;

/// UARTE `ENABLE` offset.
pub const ENABLE: usize = 0x500;

/// UARTE `PSEL.RTS` offset.
pub const PSEL_RTS: usize = 0x508;

/// UARTE `PSEL.TXD` offset.
pub const PSEL_TXD: usize = 0x50C;

/// UARTE `PSEL.CTS` offset.
pub const PSEL_CTS: usize = 0x510;

/// UARTE `PSEL.RXD` offset.
pub const PSEL_RXD: usize = 0x514;

/// `PSEL` value of a disconnected pin.
pub const PSEL_DISCONNECTED: u32 = 0xFFFF_FFFF;

/// `ENABLE` value of an enabled UARTE.
pub const ENABLE_UARTE: u32 = 8;

/// How many times an event register is polled again before giving up.
pub const STOP_SPIN_LIMIT: u32 = 100_000;

/// A register access of the UARTE0 teardown, or its end.
#[derive(Debug, Clone, Copy, PartialEq, Eq, Structural)]
pub enum UarteOp {
    /// Read the register at `addr` and hand the value to `advance`.
    Read { addr: usize },
    /// Write `value` to the register at `addr`, then call `advance`.
    Write { addr: usize, value: u32 },
    /// The teardown is over.
    Done,
}

/// Teardown step: read `ENABLE`.
pub const PHASE_READ_ENABLE: u8 = 0;
/// Teardown step: clear `EVENTS_TXSTOPPED`.
pub const PHASE_CLEAR_TXSTOPPED: u8 = 1;
/// Teardown step: clear `EVENTS_RXTO`.
pub const PHASE_CLEAR_RXTO: u8 = 2;
/// Teardown step: trigger `TASKS_STOPTX`.
pub const PHASE_STOP_TX: u8 = 3;
/// Teardown step: poll `EVENTS_TXSTOPPED`.
pub const PHASE_WAIT_TXSTOPPED: u8 = 4;
/// Teardown step: trigger `TASKS_STOPRX`.
pub const PHASE_STOP_RX: u8 = 5;
/// Teardown step: poll `EVENTS_RXTO`.
pub const PHASE_WAIT_RXTO: u8 = 6;
/// Teardown step: write `ENABLE = 0`.
pub const PHASE_DISABLE: u8 = 7;
/// Teardown step: disconnect `PSEL.RTS`.
pub const PHASE_PSEL_RTS: u8 = 8;
/// Teardown step: disconnect `PSEL.TXD`.
pub const PHASE_PSEL_TXD: u8 = 9;
/// Teardown step: disconnect `PSEL.CTS`.
pub const PHASE_PSEL_CTS: u8 = 10;
/// Teardown step: disconnect `PSEL.RXD`.
pub const PHASE_PSEL_RXD: u8 = 11;
/// The teardown is over.
pub const PHASE_DONE: u8 = 12;

/// The register access of a teardown step.
pub open spec fn spec_phase_op(phase: u8) -> UarteOp {
    if phase == PHASE_READ_ENABLE {
        UarteOp::Read { addr: (UARTE0_BASE + ENABLE) as usize }
    } else if phase == PHASE_CLEAR_TXSTOPPED {
        UarteOp::Write { addr: (UARTE0_BASE + EVENTS_TXSTOPPED) as usize, value: 0 }
    } else if phase == PHASE_CLEAR_RXTO {
        UarteOp::Write { addr: (UARTE0_BASE + EVENTS_RXTO) as usize, value: 0 }
    } else if phase == PHASE_STOP_TX {
        UarteOp::Write { addr: (UARTE0_BASE + TASKS_STOPTX) as usize, value: 1 }
    } else if phase == PHASE_WAIT_TXSTOPPED {
        UarteOp::Read { addr: (UARTE0_BASE + EVENTS_TXSTOPPED) as usize }
    } else if phase == PHASE_STOP_RX {
        UarteOp::Write { addr: (UARTE0_BASE + TASKS_STOPRX) as usize, value: 1 }
    } else if phase == PHASE_WAIT_RXTO {
        UarteOp::Read { addr: (UARTE0_BASE + EVENTS_RXTO) as usize }
    } else if phase == PHASE_DISABLE {
        UarteOp::Write { addr: (UARTE0_BASE + ENABLE) as usize, value: 0 }
    } else if phase == PHASE_PSEL_RTS {
        UarteOp::Write { addr: (UARTE0_BASE + PSEL_RTS) as usize, value: PSEL_DISCONNECTED }
    } else if phase == PHASE_PSEL_TXD {
        UarteOp::Write { addr: (UARTE0_BASE + PSEL_TXD) as usize, value: PSEL_DISCONNECTED }
    } else if phase == PHASE_PSEL_CTS {
        UarteOp::Write { addr: (UARTE0_BASE + PSEL_CTS) as usize, value: PSEL_DISCONNECTED }
    } else if phase == PHASE_PSEL_RXD {
        UarteOp::Write { addr: (UARTE0_BASE + PSEL_RXD) as usize, value: PSEL_DISCONNECTED }
    } else {
        UarteOp::Done
    }
}

/// Tearing UARTE0 down at boot, so that its pins go back to GPIO.
///
/// When UARTE0 is enabled: clear the stop events, stop transmission and
/// wait for `TXSTOPPED`, stop reception and wait for `RXTO` (each wait
/// gives up after 100 000 further polls), and disable it. In any case,
/// disconnect every `PSEL` (RTS, TXD, CTS, RXD).
pub struct Uarte0Teardown {
    phase: u8,
    spins: u32,
    was_enabled: bool,
}

impl Uarte0Teardown {
    #[verifier::type_invariant]
    spec fn inv(self) -> bool {
        &&& self.phase <= PHASE_DONE
        &&& self.spins <= STOP_SPIN_LIMIT
        &&& (PHASE_CLEAR_TXSTOPPED <= self.phase <= PHASE_DISABLE ==> self.was_enabled)
        &&& (self.spins > 0 ==> self.phase == PHASE_WAIT_TXSTOPPED || self.phase == PHASE_WAIT_RXTO)
    }

    /// The current step.
    pub closed spec fn spec_phase(self) -> u8 {
        self.phase
    }

    /// How many times the current event register was polled again.
    pub closed spec fn spec_spins(self) -> u32 {
        self.spins
    }

    /// Whether the `ENABLE` register read `ENABLE_UARTE`.
    pub closed spec fn spec_was_enabled(self) -> bool {
        self.was_enabled
    }

    /// An upper bound on the steps left; every step lowers it.
    pub open spec fn spec_steps_left(self) -> nat {
        ((PHASE_DONE - self.spec_phase()) * 200_000 + if self.spec_phase() == PHASE_WAIT_TXSTOPPED
            || self.spec_phase() == PHASE_WAIT_RXTO {
            STOP_SPIN_LIMIT - self.spec_spins()
        } else {
            0
        }) as nat
    }

    /// The register access to make next.
    pub fn action(&self) -> (op: UarteOp)
        ensures
            op == spec_phase_op(self.spec_phase()),
            op is Done <==> self.spec_phase() == PHASE_DONE,
            PHASE_CLEAR_TXSTOPPED <= self.spec_phase() <= PHASE_DISABLE ==> self.spec_was_enabled(),
            self.spec_spins() > 0 ==> (self.spec_phase() == PHASE_WAIT_TXSTOPPED || self.spec_phase()
                == PHASE_WAIT_RXTO),
    {
        proof {
            use_type_invariant(self);
        }
        let p = self.phase;
        if p == PHASE_READ_ENABLE {
            UarteOp::Read { addr: UARTE0_BASE + ENABLE }
        } else if p == PHASE_CLEAR_TXSTOPPED {
            UarteOp::Write { addr: UARTE0_BASE + EVENTS_TXSTOPPED, value: 0 }
        } else if p == PHASE_CLEAR_RXTO {
            UarteOp::Write { addr: UARTE0_BASE + EVENTS_RXTO, value: 0 }
        } else if p == PHASE_STOP_TX {
            UarteOp::Write { addr: UARTE0_BASE + TASKS_STOPTX, value: 1 }
        } else if p == PHASE_WAIT_TXSTOPPED {
            UarteOp::Read { addr: UARTE0_BASE + EVENTS_TXSTOPPED }
        } else if p == PHASE_STOP_RX {
            UarteOp::Write { addr: UARTE0_BASE + TASKS_STOPRX, value: 1 }
        } else if p == PHASE_WAIT_RXTO {
            UarteOp::Read { addr: UARTE0_BASE + EVENTS_RXTO }
        } else if p == PHASE_DISABLE {
            UarteOp::Write { addr: UARTE0_BASE + ENABLE, value: 0 }
        } else if p == PHASE_PSEL_RTS {
            UarteOp::Write { addr: UARTE0_BASE + PSEL_RTS, value: PSEL_DISCONNECTED }
        } else if p == PHASE_PSEL_TXD {
            UarteOp::Write { addr: UARTE0_BASE + PSEL_TXD, value: PSEL_DISCONNECTED }
        } else if p == PHASE_PSEL_CTS {
            UarteOp::Write { addr: UARTE0_BASE + PSEL_CTS, value: PSEL_DISCONNECTED }
        } else if p == PHASE_PSEL_RXD {
            UarteOp::Write { addr: UARTE0_BASE + PSEL_RXD, value: PSEL_DISCONNECTED }
        } else {
            UarteOp::Done
        }
    }

    /// Goes on after the access that `action` asked for; `read_value` is the
    /// value read for a read (ignored after a write).
    pub fn advance(&mut self, read_value: u32)
        requires
            old(self).spec_phase() != PHASE_DONE,
        ensures
            *final(self) == old(self).spec_after(read_value),
            final(self).spec_steps_left() < old(self).spec_steps_left(),
            final(self).spec_phase() != old(self).spec_phase() ==> final(self).spec_spins() == 0,
            final(self).spec_spins() > 0 ==> (final(self).spec_phase() == PHASE_WAIT_TXSTOPPED
                || final(self).spec_phase() == PHASE_WAIT_RXTO),
            old(self).spec_phase() == PHASE_READ_ENABLE ==> if read_value == ENABLE_UARTE {
                final(self).spec_phase() == PHASE_CLEAR_TXSTOPPED
            } else {
                final(self).spec_phase() == PHASE_PSEL_RTS
            },
            (old(self).spec_phase() == PHASE_WAIT_TXSTOPPED || old(self).spec_phase()
                == PHASE_WAIT_RXTO) ==> if read_value == 0 && old(self).spec_spins()
                < STOP_SPIN_LIMIT {
                final(self).spec_phase() == old(self).spec_phase() && final(self).spec_spins()
                    == old(self).spec_spins() + 1
            } else {
                final(self).spec_phase() == old(self).spec_phase() + 1 && final(self).spec_spins()
                    == 0
            },
            (old(self).spec_phase() != PHASE_READ_ENABLE && old(self).spec_phase()
                != PHASE_WAIT_TXSTOPPED && old(self).spec_phase() != PHASE_WAIT_RXTO)
                ==> final(self).spec_phase() == old(self).spec_phase() + 1,
            old(self).spec_phase() == PHASE_READ_ENABLE ==> final(self).spec_was_enabled() == (
            read_value == ENABLE_UARTE),
            old(self).spec_phase() != PHASE_READ_ENABLE ==> final(self).spec_was_enabled()
                == old(self).spec_was_enabled(),
    {
        proof {
            use_type_invariant(&*self);
        }
        let p = self.phase;
        if p == PHASE_READ_ENABLE {
            if read_value == ENABLE_UARTE {
                self.was_enabled = true;
                self.phase = PHASE_CLEAR_TXSTOPPED;
            } else {
                self.was_enabled = false;
                self.phase = PHASE_PSEL_RTS;
            }
        } else if p == PHASE_WAIT_TXSTOPPED || p == PHASE_WAIT_RXTO {
            if read_value == 0 && self.spins < STOP_SPIN_LIMIT {
                self.spins = self.spins + 1;
            } else {
                self.spins = 0;
                self.phase = p + 1;
            }
        } else {
            self.phase = p + 1;
        }
    }

    /// Whether the teardown is over.
    pub open spec fn is_done(self) -> bool {
        self.spec_phase() == PHASE_DONE
    }

    /// The state after the current access, `v` being the value read.
    pub closed spec fn spec_after(self, v: u32) -> Self {
        if self.phase == PHASE_READ_ENABLE {
            if v == ENABLE_UARTE {
                Uarte0Teardown { phase: PHASE_CLEAR_TXSTOPPED, spins: self.spins, was_enabled: true }
            } else {
                Uarte0Teardown { phase: PHASE_PSEL_RTS, spins: self.spins, was_enabled: false }
            }
        } else if self.phase == PHASE_WAIT_TXSTOPPED || self.phase == PHASE_WAIT_RXTO {
            if v == 0 && self.spins < STOP_SPIN_LIMIT {
                Uarte0Teardown { spins: (self.spins + 1) as u32, ..self }
            } else {
                Uarte0Teardown { phase: (self.phase + 1) as u8, spins: 0, ..self }
            }
        } else {
            Uarte0Teardown { phase: (self.phase + 1) as u8, ..self }
        }
    }

    /// The state after the accesses, `vals` being the values handed to
    /// `advance` in turn; values after the end are not consumed.
    pub open spec fn spec_run(self, vals: Seq<u32>) -> Self
        decreases vals.len(),
    {
        if vals.len() == 0 || self.is_done() {
            self
        } else {
            self.spec_after(vals[0]).spec_run(vals.drop_first())
        }
    }

    /// The register accesses made while `vals` are handed to `advance` in turn.
    pub open spec fn spec_trace(self, vals: Seq<u32>) -> Seq<UarteOp>
        decreases vals.len(),
    {
        if vals.len() == 0 || self.is_done() {
            Seq::empty()
        } else {
            seq![spec_phase_op(self.spec_phase())] + self.spec_after(vals[0]).spec_trace(
                vals.drop_first(),
            )
        }
    }
}

/// The accesses of the steps from `p` to the last `PSEL` write.
pub open spec fn phase_ops_from(p: int) -> Seq<UarteOp> {
    Seq::new((PHASE_DONE - p) as nat, |i: int| spec_phase_op((p + i) as u8))
}

/// The teardown ends: from any state, at most `spec_steps_left` more
/// accesses bring it to its end.
pub proof fn lemma_uarte0_teardown_terminates(t: Uarte0Teardown, vals: Seq<u32>)
    requires
        t.spec_phase() <= PHASE_DONE,
        t.spec_spins() <= STOP_SPIN_LIMIT,
        vals.len() >= t.spec_steps_left(),
    ensures
        t.spec_run(vals).is_done(),
    decreases vals.len(),
{
    if vals.len() > 0 && !t.is_done() {
        let u = t.spec_after(vals[0]);
        assert(u.spec_steps_left() < t.spec_steps_left());
        lemma_uarte0_teardown_terminates(u, vals.drop_first());
    } else if vals.len() == 0 {
        assert(t.spec_steps_left() == 0);
        assert(t.is_done());
    }
}

/// Once past the UARTE itself, a finished teardown makes exactly the
/// remaining `PSEL` writes, in order.
proof fn lemma_trace_tail(t: Uarte0Teardown, vals: Seq<u32>)
    requires
        PHASE_PSEL_RTS <= t.spec_phase() <= PHASE_DONE,
        t.spec_run(vals).is_done(),
    ensures
        t.spec_trace(vals) == phase_ops_from(t.spec_phase() as int),
    decreases vals.len(),
{
    if t.is_done() {
        assert(phase_ops_from(t.spec_phase() as int) =~= Seq::<UarteOp>::empty());
    } else {
        let u = t.spec_after(vals[0]);
        lemma_trace_tail(u, vals.drop_first());
        assert(phase_ops_from(t.spec_phase() as int) =~= seq![spec_phase_op(t.spec_phase())]
            + phase_ops_from(u.spec_phase() as int));
    }
}

/// Whatever was read, a finished teardown ends with the four `PSEL`
/// registers (RTS, TXD, CTS, RXD) written disconnected, in that order.
pub proof fn lemma_uarte0_teardown_disconnects_pins(t: Uarte0Teardown, vals: Seq<u32>)
    requires
        t.spec_phase() <= PHASE_DONE,
        t.spec_run(vals).is_done(),
    ensures
        ({
            let tr = t.spec_trace(vals);
            let k = if t.spec_phase() < PHASE_PSEL_RTS {
                PHASE_PSEL_RTS as int
            } else {
                t.spec_phase() as int
            };
            &&& tr.len() >= PHASE_DONE - k
            &&& tr.subrange(tr.len() - (PHASE_DONE - k), tr.len() as int) == phase_ops_from(k)
        }),
        t.spec_phase() <= PHASE_PSEL_RTS ==> phase_ops_from(PHASE_PSEL_RTS as int) == seq![
            UarteOp::Write { addr: (UARTE0_BASE + PSEL_RTS) as usize, value: PSEL_DISCONNECTED },
            UarteOp::Write { addr: (UARTE0_BASE + PSEL_TXD) as usize, value: PSEL_DISCONNECTED },
            UarteOp::Write { addr: (UARTE0_BASE + PSEL_CTS) as usize, value: PSEL_DISCONNECTED },
            UarteOp::Write { addr: (UARTE0_BASE + PSEL_RXD) as usize, value: PSEL_DISCONNECTED },
        ],
    decreases vals.len(),
{
    assert(phase_ops_from(PHASE_PSEL_RTS as int) =~= seq![
        UarteOp::Write { addr: (UARTE0_BASE + PSEL_RTS) as usize, value: PSEL_DISCONNECTED },
        UarteOp::Write { addr: (UARTE0_BASE + PSEL_TXD) as usize, value: PSEL_DISCONNECTED },
        UarteOp::Write { addr: (UARTE0_BASE + PSEL_CTS) as usize, value: PSEL_DISCONNECTED },
        UarteOp::Write { addr: (UARTE0_BASE + PSEL_RXD) as usize, value: PSEL_DISCONNECTED },
    ]);
    let tr = t.spec_trace(vals);
    if t.spec_phase() >= PHASE_PSEL_RTS {
        lemma_trace_tail(t, vals);
        assert(tr.subrange(0, tr.len() as int) =~= tr);
    } else {
        let u = t.spec_after(vals[0]);
        lemma_uarte0_teardown_disconnects_pins(u, vals.drop_first());
        let tu = u.spec_trace(vals.drop_first());
        assert(tr == seq![spec_phase_op(t.spec_phase())] + tu);
        assert(tr.subrange(tr.len() - 4, tr.len() as int) =~= tu.subrange(
            tu.len() - 4,
            tu.len() as int,
        ));
    }
}

/// When UARTE0 was not enabled, the teardown only reads `ENABLE` and then
/// disconnects the four `PSEL` registers: nothing is stopped or disabled.
pub proof fn lemma_uarte0_teardown_when_disabled(t: Uarte0Teardown, vals: Seq<u32>)
    requires
        t.spec_phase() == PHASE_READ_ENABLE,
        vals.len() >= 5,
        vals[0] != ENABLE_UARTE,
    ensures
        t.spec_run(vals).is_done(),
        t.spec_trace(vals) == seq![UarteOp::Read { addr: (UARTE0_BASE + ENABLE) as usize }]
            + phase_ops_from(PHASE_PSEL_RTS as int),
{
    let u = t.spec_after(vals[0]);
    assert(u.spec_phase() == PHASE_PSEL_RTS);
    lemma_pin_writes_finish(u, vals.drop_first());
    lemma_trace_tail(u, vals.drop_first());
}

proof fn lemma_pin_writes_finish(t: Uarte0Teardown, vals: Seq<u32>)
    requires
        PHASE_PSEL_RTS <= t.spec_phase() <= PHASE_DONE,
        vals.len() >= PHASE_DONE - t.spec_phase(),
    ensures
        t.spec_run(vals).is_done(),
    decreases vals.len(),
{
    if !t.is_done() {
        lemma_pin_writes_finish(t.spec_after(vals[0]), vals.drop_first());
    }
}

/// Start tearing UARTE0 down (see `Uarte0Teardown`): the first access reads
/// its `ENABLE` register.
pub fn uarte0_disable_for_boot() -> (t: Uarte0Teardown)
    ensures
        t.spec_phase() == PHASE_READ_ENABLE,
        t.spec_spins() == 0,
        !t.spec_was_enabled(),
        t.spec_steps_left() == 12 * 200_000,
{
    Uarte0Teardown { phase: PHASE_READ_ENABLE, spins: 0, was_enabled: false }
}

} // verus!
