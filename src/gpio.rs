//! GPIO ports: the port register block, pin identities, peripheral
//! function multiplexing, and a pin handle.

use vstd::prelude::*;
use crate::register::{bit_of, Full, ReadClear, ReadOnly};

verus! {

/// One of the eight peripheral functions a pin can be handed to.
#[derive(Clone, Copy, PartialEq, Eq, Structural, Debug)]
pub enum PeripheralFunction {
    A,
    B,
    C,
    D,
    E,
    F,
    G,
    H,
}

impl PeripheralFunction {
    /// The function's three-bit selector, A = 0 through H = 7.
    pub open spec fn code(self) -> u32 {
        match self {
            PeripheralFunction::A => 0,
            PeripheralFunction::B => 1,
            PeripheralFunction::C => 2,
            PeripheralFunction::D => 3,
            PeripheralFunction::E => 4,
            PeripheralFunction::F => 5,
            PeripheralFunction::G => 6,
            PeripheralFunction::H => 7,
        }
    }

    fn selector(self) -> (r: u32)
        ensures
            r == self.code(),
    {
        match self {
            PeripheralFunction::A => 0,
            PeripheralFunction::B => 1,
            PeripheralFunction::C => 2,
            PeripheralFunction::D => 3,
            PeripheralFunction::E => 4,
            PeripheralFunction::F => 5,
            PeripheralFunction::G => 6,
            PeripheralFunction::H => 7,
        }
    }

    /// Bit 0 of the selector, which goes to PMR0.
    pub fn bit0(self) -> (r: u32)
        ensures
            r == self.code() & 1,
    {
        self.selector() & 0b1
    }

    /// Bit 1 of the selector, which goes to PMR1.
    pub fn bit1(self) -> (r: u32)
        ensures
            r == (self.code() >> 1) & 1,
    {
        let s = self.selector();
        proof {
            assert((s & 0b10) >> 1 == (s >> 1) & 1) by (bit_vector);
        }
        (s & 0b10) >> 1
    }

    /// Bit 2 of the selector, which goes to PMR2.
    pub fn bit2(self) -> (r: u32)
        ensures
            r == (self.code() >> 2) & 1,
    {
        let s = self.selector();
        proof {
            assert((s & 0b100) >> 2 == (s >> 2) & 1) by (bit_vector);
        }
        (s & 0b100) >> 2
    }
}

/// Base address of the first GPIO port's register block.
pub const BASE_ADDRESS: u32 = 0x400E1000;

/// Distance between consecutive GPIO port register blocks.
pub const SIZE: u32 = 0x200;

/// The three GPIO ports.
#[derive(Clone, Copy, PartialEq, Eq, Structural, Debug)]
pub enum Port {
    PORT0,
    PORT1,
    PORT2,
}

impl Port {
    pub open spec fn index(self) -> u32 {
        match self {
            Port::PORT0 => 0,
            Port::PORT1 => 1,
            Port::PORT2 => 2,
        }
    }

    /// Physical address of the port's register block.
    pub fn address(self) -> (r: u32)
        ensures
            r == BASE_ADDRESS + SIZE * self.index(),
    {
        match self {
            Port::PORT0 => BASE_ADDRESS,
            Port::PORT1 => BASE_ADDRESS + SIZE,
            Port::PORT2 => BASE_ADDRESS + SIZE * 2,
        }
    }
}

/// The 32 pins of a port.
#[derive(Clone, Copy, PartialEq, Eq, Structural, Debug)]
pub enum Pin {
    P0, P1, P2, P3, P4, P5, P6, P7,
    P8, P9, P10, P11, P12, P13, P14, P15,
    P16, P17, P18, P19, P20, P21, P22, P23,
    P24, P25, P26, P27, P28, P29, P30, P31
}

impl Pin {
    /// The pin's bit position within its port.
    pub open spec fn index(self) -> u32 {
        match self {
            Pin::P0 => 0,
            Pin::P1 => 1,
            Pin::P2 => 2,
            Pin::P3 => 3,
            Pin::P4 => 4,
            Pin::P5 => 5,
            Pin::P6 => 6,
            Pin::P7 => 7,
            Pin::P8 => 8,
            Pin::P9 => 9,
            Pin::P10 => 10,
            Pin::P11 => 11,
            Pin::P12 => 12,
            Pin::P13 => 13,
            Pin::P14 => 14,
            Pin::P15 => 15,
            Pin::P16 => 16,
            Pin::P17 => 17,
            Pin::P18 => 18,
            Pin::P19 => 19,
            Pin::P20 => 20,
            Pin::P21 => 21,
            Pin::P22 => 22,
            Pin::P23 => 23,
            Pin::P24 => 24,
            Pin::P25 => 25,
            Pin::P26 => 26,
            Pin::P27 => 27,
            Pin::P28 => 28,
            Pin::P29 => 29,
            Pin::P30 => 30,
            Pin::P31 => 31,
        }
    }

    pub fn number(self) -> (r: u32)
        ensures
            r == self.index(),
            r < 32,
    {
        match self {
            Pin::P0 => 0,
            Pin::P1 => 1,
            Pin::P2 => 2,
            Pin::P3 => 3,
            Pin::P4 => 4,
            Pin::P5 => 5,
            Pin::P6 => 6,
            Pin::P7 => 7,
            Pin::P8 => 8,
            Pin::P9 => 9,
            Pin::P10 => 10,
            Pin::P11 => 11,
            Pin::P12 => 12,
            Pin::P13 => 13,
            Pin::P14 => 14,
            Pin::P15 => 15,
            Pin::P16 => 16,
            Pin::P17 => 17,
            Pin::P18 => 18,
            Pin::P19 => 19,
            Pin::P20 => 20,
            Pin::P21 => 21,
            Pin::P22 => 22,
            Pin::P23 => 23,
            Pin::P24 => 24,
            Pin::P25 => 25,
            Pin::P26 => 26,
            Pin::P27 => 27,
            Pin::P28 => 28,
            Pin::P29 => 29,
            Pin::P30 => 30,
            Pin::P31 => 31,
        }
    }

    /// The word with only this pin's bit set.
    pub fn mask(self) -> (r: u32)
        ensures
            r == 1u32 << self.index(),
    {
        1u32 << self.number()
    }
}

#[derive(Clone, Copy)]
pub struct Params {
    pub pin: Pin,
    pub port: Port,
}

/// What the pin-value register shows: for pins whose output driver is on
/// (their bit in `oder`), the output value; for the others, `pvr` as it was.
pub open spec fn pad_levels(oder: u32, ovr: u32, pvr: u32) -> u32 {
    (pvr & !oder) | (ovr & oder)
}

/// A GPIO port's register block, word by word.
#[derive(Clone, Copy)]
pub struct GPIOPortRegisters {
    pub gper: Full,
    pub pmr0: Full,
    pub pmr1: Full,
    pub pmr2: Full,
    pub oder: Full,
    pub ovr: Full,
    pub pvr: ReadOnly,
    pub puer: Full,
    pub pder: Full,
    pub ier: Full,
    pub imr0: Full,
    pub imr1: Full,
    pub gfer: Full,
    pub ifr: ReadClear,
    pub reserved1: [u32; 8],
    pub ocdr0: Full,
    pub ocdr1: Full,
    pub reserved2: [u32; 4],
    pub osrr0: Full,
    pub reserved3: [u32; 8],
    pub ster: Full,
    pub reserved4: [u32; 4],
    pub ever: Full,
    pub reserved5: [u32; 26],
    pub parameter: u32,
    pub version: u32,
}

impl GPIOPortRegisters {
    /// The block as it comes out of reset: every register, alias and
    /// reserved word at zero.
    pub open spec fn is_reset(self) -> bool {
        self.gper.is_zero() && self.pmr0.is_zero() && self.pmr1.is_zero() && self.pmr2.is_zero()
            && self.oder.is_zero() && self.ovr.is_zero() && self.pvr.is_zero()
            && self.puer.is_zero() && self.pder.is_zero() && self.ier.is_zero()
            && self.imr0.is_zero() && self.imr1.is_zero() && self.gfer.is_zero()
            && self.ifr.is_zero() && self.reserved1@ == Seq::new(8, |i: int| 0u32)
            && self.ocdr0.is_zero() && self.ocdr1.is_zero()
            && self.reserved2@ == Seq::new(4, |i: int| 0u32) && self.osrr0.is_zero()
            && self.reserved3@ == Seq::new(8, |i: int| 0u32) && self.ster.is_zero()
            && self.reserved4@ == Seq::new(4, |i: int| 0u32) && self.ever.is_zero()
            && self.reserved5@ == Seq::new(26, |i: int| 0u32) && self.parameter == 0
            && self.version == 0
    }

    /// The pin-value register agrees with the output value on every pin
    /// whose output driver is on.
    pub open spec fn pads_settled(self) -> bool {
        self.pvr.value() == pad_levels(self.oder.value(), self.ovr.value(), self.pvr.value())
    }

    /// The registers that `other` and `self` may differ in are only the
    /// multiplexing ones: GPIO enable and PMR0-2.
    pub open spec fn same_but_mux(self, other: GPIOPortRegisters) -> bool {
        self == (GPIOPortRegisters {
            gper: self.gper,
            pmr0: self.pmr0,
            pmr1: self.pmr1,
            pmr2: self.pmr2,
            ..other
        })
    }

    pub fn reset() -> (r: GPIOPortRegisters)
        ensures
            r.is_reset(),
            r.pads_settled(),
    {
        let z = Full::new(0);
        let r = GPIOPortRegisters {
            gper: z,
            pmr0: z,
            pmr1: z,
            pmr2: z,
            oder: z,
            ovr: z,
            pvr: ReadOnly::new(0),
            puer: z,
            pder: z,
            ier: z,
            imr0: z,
            imr1: z,
            gfer: z,
            ifr: ReadClear::new(0),
            reserved1: [0u32; 8],
            ocdr0: z,
            ocdr1: z,
            reserved2: [0u32; 4],
            osrr0: z,
            reserved3: [0u32; 8],
            ster: z,
            reserved4: [0u32; 4],
            ever: z,
            reserved5: [0u32; 26],
            parameter: 0,
            version: 0,
        };
        proof {
            assert(pad_levels(0, 0, 0) == 0) by (bit_vector);
            assert(r.reserved1@ =~= Seq::new(8, |i: int| 0u32));
            assert(r.reserved2@ =~= Seq::new(4, |i: int| 0u32));
            assert(r.reserved3@ =~= Seq::new(8, |i: int| 0u32));
            assert(r.reserved4@ =~= Seq::new(4, |i: int| 0u32));
            assert(r.reserved5@ =~= Seq::new(26, |i: int| 0u32));
        }
        r
    }

    /// The hardware side: the pads follow the output value of every pin
    /// whose output driver is on.
    fn drive_pads(&mut self)
        ensures
            final(self).pvr.value() == pad_levels(
                old(self).oder.value(),
                old(self).ovr.value(),
                old(self).pvr.value(),
            ),
            *final(self) == (GPIOPortRegisters { pvr: final(self).pvr, ..*old(self) }),
            final(self).pads_settled(),
    {
        let oder = self.oder.read();
        let levels = (self.pvr.read() & !oder) | (self.ovr.read() & oder);
        self.pvr.latch(levels);
        proof {
            let p = old(self).pvr.value();
            let o = old(self).ovr.value();
            assert(levels == (((p & !oder) | (o & oder)) & !oder) | (o & oder)) by (bit_vector)
                requires levels == (p & !oder) | (o & oder);
        }
    }
}

/// After the pin-multiplexing registers of a pin are written with the
/// selector bits of `f` through their set aliases, starting from a state
/// where the pin's bit is clear in all three, reading the pin's bit back
/// from PMR0, PMR1 and PMR2 gives bits 0, 1 and 2 of the selector.
pub proof fn lemma_mux_readback(pmr0: u32, pmr1: u32, pmr2: u32, f: PeripheralFunction, n: u32)
    requires
        n < 32,
        !bit_of(pmr0, n),
        !bit_of(pmr1, n),
        !bit_of(pmr2, n),
    ensures
        bit_of(pmr0 | ((f.code() & 1) << n), n) == (f.code() & 1 == 1),
        bit_of(pmr1 | (((f.code() >> 1) & 1) << n), n) == ((f.code() >> 1) & 1 == 1),
        bit_of(pmr2 | (((f.code() >> 2) & 1) << n), n) == ((f.code() >> 2) & 1 == 1),
{
    let c = f.code();
    assert(forall|v: u32, b: u32|
        #![trigger (v | ((b & 1) << n)) & (1u32 << n)]
        (v & (1u32 << n)) == 0 && n < 32 ==> ((((v | ((b & 1) << n)) & (1u32 << n)) != 0)
            == ((b & 1) == 1))) by (bit_vector);
    assert(bit_of(pmr0 | ((c & 1) << n), n) == (c & 1 == 1));
    assert(bit_of(pmr1 | (((c >> 1) & 1) << n), n) == ((c >> 1) & 1 == 1));
    assert(bit_of(pmr2 | (((c >> 2) & 1) << n), n) == ((c >> 2) & 1 == 1));
}

/// On a pin whose output driver is on, the pin-value register shows the
/// output value: after a set the pin reads high, after a clear it reads low,
/// and after a toggle it reads the opposite of what it read before.
pub proof fn lemma_output_readback(oder: u32, ovr: u32, pvr: u32, n: u32)
    requires
        n < 32,
        bit_of(oder, n),
    ensures
        bit_of(pad_levels(oder, ovr, pvr), n) == bit_of(ovr, n),
        bit_of(pad_levels(oder, ovr | (1u32 << n), pvr), n),
        !bit_of(pad_levels(oder, ovr & !(1u32 << n), pvr), n),
        bit_of(pad_levels(oder, ovr ^ (1u32 << n), pvr), n) == !bit_of(ovr, n),
{
    assert(forall|o: u32, p: u32|
        #![trigger ((p & !oder) | (o & oder)) & (1u32 << n)]
        n < 32 && (oder & (1u32 << n)) != 0 ==> ((((p & !oder) | (o & oder)) & (1u32 << n)) != 0)
            == ((o & (1u32 << n)) != 0)) by (bit_vector);
    assert(n < 32 ==> ((ovr | (1u32 << n)) & (1u32 << n)) != 0) by (bit_vector);
    assert(n < 32 ==> ((ovr & !(1u32 << n)) & (1u32 << n)) == 0) by (bit_vector);
    assert(n < 32 ==> ((((ovr ^ (1u32 << n)) & (1u32 << n)) != 0) == ((ovr & (1u32 << n)) == 0)))
        by (bit_vector);
    assert(bit_of(pad_levels(oder, ovr, pvr), n) == bit_of(ovr, n));
    assert(bit_of(pad_levels(oder, ovr | (1u32 << n), pvr), n) == bit_of(ovr | (1u32 << n), n));
    assert(bit_of(pad_levels(oder, ovr & !(1u32 << n), pvr), n) == bit_of(ovr & !(1u32 << n), n));
    assert(bit_of(pad_levels(oder, ovr ^ (1u32 << n), pvr), n) == bit_of(ovr ^ (1u32 << n), n));
}

/// A handle on one pin of one port.
pub struct GPIOPin {
    registers: GPIOPortRegisters,
    port: Port,
    pin: Pin,
}

impl GPIOPin {
    pub closed spec fn regs(self) -> GPIOPortRegisters {
        self.registers
    }

    pub closed spec fn port_id(self) -> Port {
        self.port
    }

    pub closed spec fn pin_id(self) -> Pin {
        self.pin
    }

    /// The pin's bit position.
    pub open spec fn n(self) -> u32 {
        self.pin_id().index()
    }

    /// The pin's mask.
    pub open spec fn m(self) -> u32 {
        1u32 << self.n()
    }

    /// `self` is `old` with only the port's registers changed, and among
    /// them only the output value and what the pads show.
    pub open spec fn output_write(self, old: GPIOPin) -> bool {
        self.port_id() == old.port_id() && self.pin_id() == old.pin_id()
            && self.regs() == (GPIOPortRegisters {
                ovr: self.regs().ovr,
                pvr: self.regs().pvr,
                ..old.regs()
            })
            && self.regs().pvr.value() == pad_levels(
                old.regs().oder.value(),
                self.regs().ovr.value(),
                old.regs().pvr.value(),
            )
    }

    /// A handle on the pin and port `params` names, over its port's
    /// register block as it comes out of reset.
    pub fn new(params: Params) -> (r: GPIOPin)
        ensures
            r.port_id() == params.port,
            r.pin_id() == params.pin,
            r.regs().is_reset(),
            r.regs().pads_settled(),
    {
        GPIOPin { registers: GPIOPortRegisters::reset(), port: params.port, pin: params.pin }
    }

    pub fn registers(&self) -> (r: &GPIOPortRegisters)
        ensures
            *r == self.regs(),
    {
        &self.registers
    }

    /// Hands the pin to peripheral function `function`: takes it from the
    /// GPIO logic, then ORs the selector's bits 0, 1 and 2, at the pin's
    /// position, into PMR0, PMR1 and PMR2.
    pub fn select_peripheral(&mut self, function: PeripheralFunction)
        ensures
            final(self).port_id() == old(self).port_id(),
            final(self).pin_id() == old(self).pin_id(),
            final(self).regs().gper.value() == old(self).regs().gper.value() & !old(self).m(),
            final(self).regs().pmr0.value() == old(self).regs().pmr0.value() | ((
            function.code() & 1) << old(self).n()),
            final(self).regs().pmr1.value() == old(self).regs().pmr1.value() | (((
            function.code() >> 1) & 1) << old(self).n()),
            final(self).regs().pmr2.value() == old(self).regs().pmr2.value() | (((
            function.code() >> 2) & 1) << old(self).n()),
            final(self).regs().same_but_mux(old(self).regs()),
            final(self).regs().gper.clear_alias() == old(self).m(),
            final(self).regs().gper.set_alias() == old(self).regs().gper.set_alias(),
            final(self).regs().gper.toggle_alias() == old(self).regs().gper.toggle_alias(),
            final(self).regs().pmr0.set_alias() == (function.code() & 1) << old(self).n(),
            final(self).regs().pmr1.set_alias() == ((function.code() >> 1) & 1) << old(self).n(),
            final(self).regs().pmr2.set_alias() == ((function.code() >> 2) & 1) << old(self).n(),
            final(self).regs().pmr0.clear_alias() == old(self).regs().pmr0.clear_alias(),
            final(self).regs().pmr0.toggle_alias() == old(self).regs().pmr0.toggle_alias(),
            final(self).regs().pmr1.clear_alias() == old(self).regs().pmr1.clear_alias(),
            final(self).regs().pmr1.toggle_alias() == old(self).regs().pmr1.toggle_alias(),
            final(self).regs().pmr2.clear_alias() == old(self).regs().pmr2.clear_alias(),
            final(self).regs().pmr2.toggle_alias() == old(self).regs().pmr2.toggle_alias(),
    {
        self.registers.gper.clear(self.pin.mask());
        let n = self.pin.number();
        self.registers.pmr0.set(function.bit0() << n);
        self.registers.pmr1.set(function.bit1() << n);
        self.registers.pmr2.set(function.bit2() << n);
    }

    /// Makes the pin a GPIO output: GPIO enable and output driver on,
    /// Schmitt trigger off.
    pub fn enable_output(&mut self)
        ensures
            final(self).port_id() == old(self).port_id(),
            final(self).pin_id() == old(self).pin_id(),
            final(self).regs().gper.value() == old(self).regs().gper.value() | old(self).m(),
            final(self).regs().oder.value() == old(self).regs().oder.value() | old(self).m(),
            final(self).regs().ster.value() == old(self).regs().ster.value() & !old(self).m(),
            final(self).regs().gper.set_alias() == old(self).m(),
            final(self).regs().oder.set_alias() == old(self).m(),
            final(self).regs().ster.clear_alias() == old(self).m(),
            final(self).regs().gper.clear_alias() == old(self).regs().gper.clear_alias(),
            final(self).regs().gper.toggle_alias() == old(self).regs().gper.toggle_alias(),
            final(self).regs().oder.clear_alias() == old(self).regs().oder.clear_alias(),
            final(self).regs().oder.toggle_alias() == old(self).regs().oder.toggle_alias(),
            final(self).regs().ster.set_alias() == old(self).regs().ster.set_alias(),
            final(self).regs().ster.toggle_alias() == old(self).regs().ster.toggle_alias(),
            final(self).regs().pvr.value() == pad_levels(
                final(self).regs().oder.value(),
                old(self).regs().ovr.value(),
                old(self).regs().pvr.value(),
            ),
            final(self).regs() == (GPIOPortRegisters {
                gper: final(self).regs().gper,
                oder: final(self).regs().oder,
                ster: final(self).regs().ster,
                pvr: final(self).regs().pvr,
                ..old(self).regs()
            }),
    {
        let mask = self.pin.mask();
        self.registers.gper.set(mask);
        self.registers.oder.set(mask);
        self.registers.ster.clear(mask);
        self.registers.drive_pads();
    }

    /// Whether the pin's bit is set in the pin-value register.
    pub fn read(&self) -> (r: bool)
        ensures
            r == bit_of(self.regs().pvr.value(), self.n()),
    {
        (self.registers.pvr.read() & self.pin.mask()) > 0
    }

    pub fn toggle(&mut self)
        ensures
            final(self).output_write(*old(self)),
            final(self).regs().ovr.value() == old(self).regs().ovr.value() ^ old(self).m(),
            final(self).regs().ovr.toggle_alias() == old(self).m(),
            final(self).regs().ovr.set_alias() == old(self).regs().ovr.set_alias(),
            final(self).regs().ovr.clear_alias() == old(self).regs().ovr.clear_alias(),
    {
        self.registers.ovr.toggle(self.pin.mask());
        self.registers.drive_pads();
    }

    pub fn set(&mut self)
        ensures
            final(self).output_write(*old(self)),
            final(self).regs().ovr.value() == old(self).regs().ovr.value() | old(self).m(),
            final(self).regs().ovr.set_alias() == old(self).m(),
            final(self).regs().ovr.clear_alias() == old(self).regs().ovr.clear_alias(),
            final(self).regs().ovr.toggle_alias() == old(self).regs().ovr.toggle_alias(),
    {
        self.registers.ovr.set(self.pin.mask());
        self.registers.drive_pads();
    }

    pub fn clear(&mut self)
        ensures
            final(self).output_write(*old(self)),
            final(self).regs().ovr.value() == old(self).regs().ovr.value() & !old(self).m(),
            final(self).regs().ovr.clear_alias() == old(self).m(),
            final(self).regs().ovr.set_alias() == old(self).regs().ovr.set_alias(),
            final(self).regs().ovr.toggle_alias() == old(self).regs().ovr.toggle_alias(),
    {
        self.registers.ovr.clear(self.pin.mask());
        self.registers.drive_pads();
    }
}

} // verus!
