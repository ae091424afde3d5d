//! The USART driver: mode and baud configuration, transmitter and receiver
//! control, and the shared peripheral-bus clock that the four USARTs hold
//! through one `ClockGate`.

use vstd::prelude::*;
use crate::clock::{acquire_powers_on, release_powers_off, ClockGate};

verus! {

/// The frequency of the peripheral bus clock that feeds the baud generator.
pub const BUS_CLOCK_HZ: u32 = 48000000;

/// Base address of the first USART's register block.
pub const BASE_ADDRESS: u32 = 0x40024000;

/// Distance between consecutive USART register blocks.
pub const SIZE: u32 = 0x4000;

/// Guard time, in bit periods, placed between transmitted frames.
pub const GUARD_TIME: u32 = 4;

/// Control register: receiver enable, receiver disable, transmitter enable,
/// transmitter disable.
pub const CR_RXEN: u32 = 1u32 << 4;
pub const CR_RXDIS: u32 = 1u32 << 5;
pub const CR_TXEN: u32 = 1u32 << 6;
pub const CR_TXDIS: u32 = 1u32 << 7;

/// The four USART instances.
#[derive(Clone, Copy, PartialEq, Eq, Structural, Debug)]
pub enum BaseAddr {
    USART0,
    USART1,
    USART2,
    USART3,
}

impl BaseAddr {
    pub open spec fn index(self) -> u32 {
        match self {
            BaseAddr::USART0 => 0,
            BaseAddr::USART1 => 1,
            BaseAddr::USART2 => 2,
            BaseAddr::USART3 => 3,
        }
    }

    /// Physical address of the instance's register block.
    pub fn address(self) -> (r: u32)
        ensures
            r == BASE_ADDRESS + SIZE * self.index(),
    {
        match self {
            BaseAddr::USART0 => BASE_ADDRESS,
            BaseAddr::USART1 => BASE_ADDRESS + SIZE,
            BaseAddr::USART2 => BASE_ADDRESS + SIZE * 2,
            BaseAddr::USART3 => BASE_ADDRESS + SIZE * 3,
        }
    }
}

#[derive(Clone, Copy)]
pub struct Params {
    pub address: BaseAddr,
}

/// Parity setting, as encoded in the mode register's PAR field.
#[derive(Clone, Copy, PartialEq, Eq, Structural, Debug)]
pub enum Parity {
    EVEN,
    ODD,
    FORCE0,
    FORCE1,
    NONE,
    MULTIDROP,
}

impl Parity {
    pub open spec fn code(self) -> u32 {
        match self {
            Parity::EVEN => 0,
            Parity::ODD => 1,
            Parity::FORCE0 => 2,
            Parity::FORCE1 => 3,
            Parity::NONE => 4,
            Parity::MULTIDROP => 6,
        }
    }

    pub fn bits(self) -> (r: u32)
        ensures
            r == self.code(),
    {
        match self {
            Parity::EVEN => 0,
            Parity::ODD => 1,
            Parity::FORCE0 => 2,
            Parity::FORCE1 => 3,
            Parity::NONE => 4,
            Parity::MULTIDROP => 6,
        }
    }
}

/// Line settings that `init` applies.
#[derive(Clone, Copy)]
pub struct UARTParams {
    pub baud_rate: u32,
    pub data_bits: u8,
    pub parity: Parity,
}

/// The USART register block, word by word.
#[derive(Clone, Copy)]
pub struct UsartRegisters {
    pub cr: u32,
    pub mr: u32,
    pub ier: u32,
    pub idr: u32,
    pub imr: u32,
    pub csr: u32,
    pub rhr: u32,
    pub thr: u32,
    pub brgr: u32,
    pub rtor: u32,
    pub ttgr: u32,
    pub reserved0: [u32; 5],
    pub fidi: u32,
    pub ner: u32,
    pub reserved1: u32,
    pub ifr: u32,
    pub man: u32,
    pub linmr: u32,
    pub linir: u32,
    pub linbrr: u32,
    pub wpmr: u32,
    pub wpsr: u32,
    pub version: u32,
}

impl UsartRegisters {
    /// The block as it comes out of reset: every word at zero.
    pub open spec fn is_reset(self) -> bool {
        self.cr == 0 && self.mr == 0 && self.ier == 0 && self.idr == 0 && self.imr == 0
            && self.csr == 0 && self.rhr == 0 && self.thr == 0 && self.brgr == 0
            && self.rtor == 0 && self.ttgr == 0 && self.reserved0@ == seq![0u32, 0u32, 0u32, 0u32, 0u32]
            && self.fidi == 0 && self.ner == 0 && self.reserved1 == 0 && self.ifr == 0
            && self.man == 0 && self.linmr == 0 && self.linir == 0 && self.linbrr == 0
            && self.wpmr == 0 && self.wpsr == 0 && self.version == 0
    }

    pub fn reset() -> (r: UsartRegisters)
        ensures
            r.is_reset(),
    {
        UsartRegisters {
            cr: 0,
            mr: 0,
            ier: 0,
            idr: 0,
            imr: 0,
            csr: 0,
            rhr: 0,
            thr: 0,
            brgr: 0,
            rtor: 0,
            ttgr: 0,
            reserved0: [0u32, 0u32, 0u32, 0u32, 0u32],
            fidi: 0,
            ner: 0,
            reserved1: 0,
            ifr: 0,
            man: 0,
            linmr: 0,
            linir: 0,
            linbrr: 0,
            wpmr: 0,
            wpsr: 0,
            version: 0,
        }
    }
}

/// The baud generator's clock divisor: the bus clock over sixteen times the
/// baud rate, rounded down.
pub open spec fn divisor(bus_clock: u32, baud_rate: u32) -> int {
    bus_clock as int / (16 * baud_rate as int)
}

/// A baud rate the generator can be asked for.
pub open spec fn valid_baud(baud_rate: u32) -> bool {
    0 < baud_rate && 16 * baud_rate as int <= u32::MAX as int
}

pub fn compute_divisor(bus_clock: u32, baud_rate: u32) -> (r: u32)
    requires
        valid_baud(baud_rate),
    ensures
        r == divisor(bus_clock, baud_rate),
{
    bus_clock / (16 * baud_rate)
}

/// The mode word: normal mode, bus clock, character length of `data_bits`
/// bits (CHRL, the low two bits of `data_bits - 1`, at bit 6), the parity
/// code at bit 9, one stop bit.
pub open spec fn mode_word(data_bits: u8, parity: Parity) -> int {
    ((data_bits - 1) % 4) * 64 + parity.code() * 512
}

pub struct USART {
    registers: UsartRegisters,
    address: BaseAddr,
    clock_enabled: bool,
    tx_enabled: bool,
    rx_enabled: bool,
}

impl USART {
    pub closed spec fn regs(self) -> UsartRegisters {
        self.registers
    }

    pub closed spec fn base(self) -> BaseAddr {
        self.address
    }

    /// Whether this handle holds the shared clock.
    pub closed spec fn holds_clock(self) -> bool {
        self.clock_enabled
    }

    pub closed spec fn tx_on(self) -> bool {
        self.tx_enabled
    }

    pub closed spec fn rx_on(self) -> bool {
        self.rx_enabled
    }

    /// Everything but the register block is as in `other`.
    pub open spec fn same_state(self, other: USART) -> bool {
        self.base() == other.base() && self.holds_clock() == other.holds_clock()
            && self.tx_on() == other.tx_on() && self.rx_on() == other.rx_on()
    }

    pub fn new(params: Params) -> (r: USART)
        ensures
            r.base() == params.address,
            r.regs().is_reset(),
            !r.holds_clock(),
            !r.tx_on(),
            !r.rx_on(),
    {
        USART {
            registers: UsartRegisters::reset(),
            address: params.address,
            clock_enabled: false,
            tx_enabled: false,
            rx_enabled: false,
        }
    }

    pub fn registers(&self) -> (r: &UsartRegisters)
        ensures
            *r == self.regs(),
    {
        &self.registers
    }

    pub fn clock_enabled(&self) -> (r: bool)
        ensures
            r == self.holds_clock(),
    {
        self.clock_enabled
    }

    pub fn tx_enabled(&self) -> (r: bool)
        ensures
            r == self.tx_on(),
    {
        self.tx_enabled
    }

    pub fn rx_enabled(&self) -> (r: bool)
        ensures
            r == self.rx_on(),
    {
        self.rx_enabled
    }

    /// The hardware side: the channel status register now reads `csr`.
    pub fn present_status(&mut self, csr: u32)
        ensures
            final(self).regs() == (UsartRegisters { csr, ..old(self).regs() }),
            final(self).same_state(*old(self)),
    {
        self.registers.csr = csr;
    }

    /// Takes this handle's hold on the shared clock, unless it has one. The
    /// clock is switched on by this call exactly when the handle did not
    /// hold it and nobody else did either.
    pub fn enable_clock(&mut self, gate: &mut ClockGate)
        requires
            old(gate).wf(),
            old(gate).users() < u64::MAX,
            old(self).holds_clock() ==> old(gate).users() > 0,
        ensures
            final(gate).wf(),
            (final(gate).powered() != old(gate).powered()) == (!old(self).holds_clock()
                && acquire_powers_on(old(gate).users())),
            final(self).holds_clock(),
            final(gate).powered(),
            final(gate).users() == if old(self).holds_clock() {
                old(gate).users()
            } else {
                old(gate).users() + 1
            },
            final(self).regs() == old(self).regs(),
            final(self).base() == old(self).base(),
            final(self).tx_on() == old(self).tx_on(),
            final(self).rx_on() == old(self).rx_on(),
    {
        if self.clock_enabled {
            return ;
        }
        gate.acquire();
        self.clock_enabled = true;
    }

    /// Gives back this handle's hold on the shared clock, if it has one.
    /// The clock is switched off by this call exactly when the handle held
    /// it and was its last holder.
    pub fn disable_clock(&mut self, gate: &mut ClockGate)
        requires
            old(gate).wf(),
            old(self).holds_clock() ==> old(gate).users() > 0,
        ensures
            final(gate).wf(),
            (final(gate).powered() != old(gate).powered()) == (old(self).holds_clock()
                && release_powers_off(old(gate).users())),
            !final(self).holds_clock(),
            final(gate).users() == if old(self).holds_clock() {
                old(gate).users() - 1
            } else {
                old(gate).users() as int
            },
            final(self).regs() == old(self).regs(),
            final(self).base() == old(self).base(),
            final(self).tx_on() == old(self).tx_on(),
            final(self).rx_on() == old(self).rx_on(),
    {
        if !self.clock_enabled {
            return ;
        }
        gate.release();
        self.clock_enabled = false;
    }

    pub fn set_baud_rate(&mut self, baud_rate: u32)
        requires
            valid_baud(baud_rate),
        ensures
            final(self).regs() == (UsartRegisters {
                brgr: divisor(BUS_CLOCK_HZ, baud_rate) as u32,
                ..old(self).regs()
            }),
            final(self).same_state(*old(self)),
    {
        let cd = compute_divisor(BUS_CLOCK_HZ, baud_rate);
        self.registers.brgr = cd;
    }

    pub fn set_mode(&mut self, mode: u32)
        ensures
            final(self).regs() == (UsartRegisters { mr: mode, ..old(self).regs() }),
            final(self).same_state(*old(self)),
    {
        self.registers.mr = mode;
    }

    /// Whether a received character waits in the receive holding register.
    pub fn rx_ready(&self) -> (r: bool)
        ensures
            r == (self.regs().csr & 0b1 != 0),
    {
        self.registers.csr & 0b1 != 0
    }

    /// Whether the transmit holding register can take a character.
    pub fn tx_ready(&self) -> (r: bool)
        ensures
            r == (self.regs().csr & 0b10 != 0),
    {
        self.registers.csr & 0b10 != 0
    }
    /// Turns the receiver on and takes a hold on the clock for it.
    pub fn enable_rx(&mut self, gate: &mut ClockGate)
        requires
            old(gate).wf(),
            old(gate).users() < u64::MAX,
            old(self).holds_clock() ==> old(gate).users() > 0,
        ensures
            final(gate).wf(),
            final(self).regs() == (UsartRegisters { cr: CR_RXEN, ..old(self).regs() }),
            final(self).rx_on(),
            final(self).tx_on() == old(self).tx_on(),
            final(self).base() == old(self).base(),
            final(self).holds_clock(),
            final(gate).powered(),
            final(gate).users() == if old(self).holds_clock() {
                old(gate).users()
            } else {
                old(gate).users() + 1
            },
    {
        self.registers.cr = CR_RXEN;
        self.rx_enabled = true;
        self.enable_clock(gate);
    }

    /// Turns the receiver off; the clock is given back only when the
    /// transmitter is not in use either.
    pub fn disable_rx(&mut self, gate: &mut ClockGate)
        requires
            old(gate).wf(),
            old(self).holds_clock() ==> old(gate).users() > 0,
        ensures
            final(gate).wf(),
            final(self).regs() == (UsartRegisters { cr: CR_RXDIS, ..old(self).regs() }),
            !final(self).rx_on(),
            final(self).tx_on() == old(self).tx_on(),
            final(self).base() == old(self).base(),
            final(self).holds_clock() == (old(self).holds_clock() && old(self).tx_on()),
            final(gate).users() == if old(self).holds_clock() && !old(self).tx_on() {
                old(gate).users() - 1
            } else {
                old(gate).users() as int
            },
    {
        self.registers.cr = CR_RXDIS;
        self.rx_enabled = false;
        if !self.tx_enabled {
            self.disable_clock(gate);
        }
    }

    /// Turns the transmitter on and takes a hold on the clock for it.
    pub fn enable_tx(&mut self, gate: &mut ClockGate)
        requires
            old(gate).wf(),
            old(gate).users() < u64::MAX,
            old(self).holds_clock() ==> old(gate).users() > 0,
        ensures
            final(gate).wf(),
            final(self).regs() == (UsartRegisters { cr: CR_TXEN, ..old(self).regs() }),
            final(self).tx_on(),
            final(self).rx_on() == old(self).rx_on(),
            final(self).base() == old(self).base(),
            final(self).holds_clock(),
            final(gate).powered(),
            final(gate).users() == if old(self).holds_clock() {
                old(gate).users()
            } else {
                old(gate).users() + 1
            },
    {
        self.enable_clock(gate);
        self.registers.cr = CR_TXEN;
        self.tx_enabled = true;
    }

    /// Turns the transmitter off; the clock is given back only when the
    /// receiver is not in use either.
    pub fn disable_tx(&mut self, gate: &mut ClockGate)
        requires
            old(gate).wf(),
            old(self).holds_clock() ==> old(gate).users() > 0,
        ensures
            final(gate).wf(),
            final(self).regs() == (UsartRegisters { cr: CR_TXDIS, ..old(self).regs() }),
            !final(self).tx_on(),
            final(self).rx_on() == old(self).rx_on(),
            final(self).base() == old(self).base(),
            final(self).holds_clock() == (old(self).holds_clock() && old(self).rx_on()),
            final(gate).users() == if old(self).holds_clock() && !old(self).rx_on() {
                old(gate).users() - 1
            } else {
                old(gate).users() as int
            },
    {
        self.registers.cr = CR_TXDIS;
        self.tx_enabled = false;
        if !self.rx_enabled {
            self.disable_clock(gate);
        }
    }

    /// Takes a hold on the clock, then writes the mode word, the baud
    /// divisor and the guard time.
    pub fn init(&mut self, params: UARTParams, gate: &mut ClockGate)
        requires
            old(gate).wf(),
            old(gate).users() < u64::MAX,
            old(self).holds_clock() ==> old(gate).users() > 0,
            params.data_bits >= 1,
            valid_baud(params.baud_rate),
        ensures
            final(gate).wf(),
            final(self).regs() == (UsartRegisters {
                mr: mode_word(params.data_bits, params.parity) as u32,
                brgr: divisor(BUS_CLOCK_HZ, params.baud_rate) as u32,
                ttgr: GUARD_TIME,
                ..old(self).regs()
            }),
            final(self).tx_on() == old(self).tx_on(),
            final(self).rx_on() == old(self).rx_on(),
            final(self).base() == old(self).base(),
            final(self).holds_clock(),
            final(gate).powered(),
            final(gate).users() == if old(self).holds_clock() {
                old(gate).users()
            } else {
                old(gate).users() + 1
            },
    {
        self.enable_clock(gate);
        let length: u8 = params.data_bits - 1;
        let chrl: u32 = (length & 0x3) as u32;
        let par: u32 = params.parity.bits();
        let mode: u32 = (chrl << 6) | (par << 9);
        proof {
            assert(length & 0x3 == length % 4) by (bit_vector);
            assert(chrl < 4 && par < 8 ==> (chrl << 6) | (par << 9) == chrl * 64 + par * 512)
                by (bit_vector);
        }
        self.set_mode(mode);
        self.set_baud_rate(params.baud_rate);
        self.registers.ttgr = GUARD_TIME;
    }

    /// Hands `byte` to the transmitter if it can take it now, and says
    /// whether it did; a caller that must send waits and tries again.
    pub fn send_byte(&mut self, byte: u8) -> (sent: bool)
        ensures
            sent == (old(self).regs().csr & 0b10 != 0),
            final(self).regs() == if sent {
                UsartRegisters { thr: byte as u32, ..old(self).regs() }
            } else {
                old(self).regs()
            },
            final(self).same_state(*old(self)),
    {
        if !self.tx_ready() {
            return false;
        }
        self.registers.thr = byte as u32;
        true
    }
}

} // verus!
