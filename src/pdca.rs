//! DMA channels of the peripheral DMA controller: binding a channel to a
//! peripheral and pointing it at a buffer.

use vstd::prelude::*;
use core::marker::PhantomData;

verus! {

/// Base address of channel 0's register block.
pub const DMA_BASE: u32 = 0x400A2000;

/// Distance between consecutive channel register blocks.
pub const CHANNEL_STRIDE: u32 = 0x40;

/// The sixteen channels.
#[derive(Clone, Copy, PartialEq, Eq, Structural, Debug)]
pub enum CH {
    CH0,
    CH1,
    CH2,
    CH3,
    CH4,
    CH5,
    CH6,
    CH7,
    CH8,
    CH9,
    CH10,
    CH11,
    CH12,
    CH13,
    CH14,
    CH15,
}

impl CH {
    pub open spec fn index(self) -> u32 {
        match self {
            CH::CH0 => 0,
            CH::CH1 => 1,
            CH::CH2 => 2,
            CH::CH3 => 3,
            CH::CH4 => 4,
            CH::CH5 => 5,
            CH::CH6 => 6,
            CH::CH7 => 7,
            CH::CH8 => 8,
            CH::CH9 => 9,
            CH::CH10 => 10,
            CH::CH11 => 11,
            CH::CH12 => 12,
            CH::CH13 => 13,
            CH::CH14 => 14,
            CH::CH15 => 15,
        }
    }

    fn number(self) -> (r: u32)
        ensures
            r == self.index(),
            r < 16,
    {
        match self {
            CH::CH0 => 0,
            CH::CH1 => 1,
            CH::CH2 => 2,
            CH::CH3 => 3,
            CH::CH4 => 4,
            CH::CH5 => 5,
            CH::CH6 => 6,
            CH::CH7 => 7,
            CH::CH8 => 8,
            CH::CH9 => 9,
            CH::CH10 => 10,
            CH::CH11 => 11,
            CH::CH12 => 12,
            CH::CH13 => 13,
            CH::CH14 => 14,
            CH::CH15 => 15,
        }
    }

    /// Offset of the channel's register block from `DMA_BASE`.
    pub fn offset(self) -> (r: u32)
        ensures
            r == CHANNEL_STRIDE * self.index(),
    {
        CHANNEL_STRIDE * self.number()
    }
}

/// The peripherals a channel can serve, with their peripheral identifiers.
#[derive(Clone, Copy, PartialEq, Eq, Structural, Debug)]
pub enum Peripheral {
    USART0RX,
    USART1RX,
    USART2RX,
    USART3RX,
    SPIRX,
    TWIM0RX,
    TWIM1RX,
    TWIM2RX,
    TWIM3RX,
    TWIS0RX,
    TWIS1RX,
    ADCIFERX,
    CATBRX,
    // 13 is reserved
    IISCRX0,
    IISCRX1,
    PARCRX,
    AESARX,
    USART0TX,
    USART1TX,
    USART2TX,
    USART3TX,
    SPITX,
    TWIM0TX,
    TWIM1TX,
    TWIM2TX,
    TWIM3TX,
    TWIS0TX,
    TWIS1TX,
    ADCIFETX,
    CATBTX,
    ADBACBTX0,
    ADBACBTX1,
    IISCTX0,
    IISCTX1,
    DACCTX,
    AESATX,
}

impl Peripheral {
    pub open spec fn code(self) -> u32 {
        match self {
            Peripheral::USART0RX => 0,
            Peripheral::USART1RX => 1,
            Peripheral::USART2RX => 2,
            Peripheral::USART3RX => 3,
            Peripheral::SPIRX => 4,
            Peripheral::TWIM0RX => 5,
            Peripheral::TWIM1RX => 6,
            Peripheral::TWIM2RX => 7,
            Peripheral::TWIM3RX => 8,
            Peripheral::TWIS0RX => 9,
            Peripheral::TWIS1RX => 10,
            Peripheral::ADCIFERX => 11,
            Peripheral::CATBRX => 12,
            Peripheral::IISCRX0 => 14,
            Peripheral::IISCRX1 => 15,
            Peripheral::PARCRX => 16,
            Peripheral::AESARX => 17,
            Peripheral::USART0TX => 18,
            Peripheral::USART1TX => 19,
            Peripheral::USART2TX => 20,
            Peripheral::USART3TX => 21,
            Peripheral::SPITX => 22,
            Peripheral::TWIM0TX => 23,
            Peripheral::TWIM1TX => 24,
            Peripheral::TWIM2TX => 25,
            Peripheral::TWIM3TX => 26,
            Peripheral::TWIS0TX => 27,
            Peripheral::TWIS1TX => 28,
            Peripheral::ADCIFETX => 29,
            Peripheral::CATBTX => 30,
            Peripheral::ADBACBTX0 => 31,
            Peripheral::ADBACBTX1 => 32,
            Peripheral::IISCTX0 => 33,
            Peripheral::IISCTX1 => 34,
            Peripheral::DACCTX => 35,
            Peripheral::AESATX => 36,
        }
    }

    /// The peripheral identifier written to a channel's PSR.
    pub fn id(self) -> (r: u32)
        ensures
            r == self.code(),
    {
        match self {
            Peripheral::USART0RX => 0,
            Peripheral::USART1RX => 1,
            Peripheral::USART2RX => 2,
            Peripheral::USART3RX => 3,
            Peripheral::SPIRX => 4,
            Peripheral::TWIM0RX => 5,
            Peripheral::TWIM1RX => 6,
            Peripheral::TWIM2RX => 7,
            Peripheral::TWIM3RX => 8,
            Peripheral::TWIS0RX => 9,
            Peripheral::TWIS1RX => 10,
            Peripheral::ADCIFERX => 11,
            Peripheral::CATBRX => 12,
            Peripheral::IISCRX0 => 14,
            Peripheral::IISCRX1 => 15,
            Peripheral::PARCRX => 16,
            Peripheral::AESARX => 17,
            Peripheral::USART0TX => 18,
            Peripheral::USART1TX => 19,
            Peripheral::USART2TX => 20,
            Peripheral::USART3TX => 21,
            Peripheral::SPITX => 22,
            Peripheral::TWIM0TX => 23,
            Peripheral::TWIM1TX => 24,
            Peripheral::TWIM2TX => 25,
            Peripheral::TWIM3TX => 26,
            Peripheral::TWIS0TX => 27,
            Peripheral::TWIS1TX => 28,
            Peripheral::ADCIFETX => 29,
            Peripheral::CATBTX => 30,
            Peripheral::ADBACBTX0 => 31,
            Peripheral::ADBACBTX1 => 32,
            Peripheral::IISCTX0 => 33,
            Peripheral::IISCTX1 => 34,
            Peripheral::DACCTX => 35,
            Peripheral::AESATX => 36,
        }
    }
}

/// A buffer handed to the DMA controller: its address, and through its
/// type, its size. The controller does not own the buffer; keeping it in
/// place for the transfer is the caller's part.
pub struct KO<T> {
    data: u32,
    marker: PhantomData<T>,
}

impl<T> KO<T> {
    pub closed spec fn address(self) -> u32 {
        self.data
    }

    /// The buffer of type `T` at `data`.
    pub fn new(data: u32) -> (r: KO<T>)
        ensures
            r.address() == data,
    {
        KO { data, marker: PhantomData }
    }

    pub fn addr(self) -> (r: u32)
        ensures
            r == self.address(),
    {
        self.data
    }

    /// The size in bytes of a `T`.
    pub fn size(self) -> (r: usize)
        ensures
            r as nat == vstd::layout::size_of::<T>(),
    {
        core::mem::size_of::<T>()
    }
}

/// A channel's register block, word by word.
#[derive(Clone, Copy)]
pub struct DmaRegisters {
    pub mar: u32,
    pub psr: u32,
    pub tcr: u32,
    pub marr: u32,
    pub cr: u32,
    pub mr: u32,
    pub sr: u32,
    pub ier: u32,
    pub idr: u32,
    pub imr: u32,
    pub isr: u32,
}

pub struct DMAChannel {
    address: u32,
    registers: DmaRegisters,
}

impl DMAChannel {
    /// Physical address of the channel's register block.
    pub closed spec fn base(self) -> u32 {
        self.address
    }

    pub closed spec fn regs(self) -> DmaRegisters {
        self.registers
    }

    /// The handle on channel `ch`, bound to peripheral `pid`: the channel's
    /// block lies at `DMA_BASE` plus the channel's offset, and its
    /// peripheral select register holds the peripheral's identifier.
    pub fn new(ch: CH, pid: Peripheral) -> (r: DMAChannel)
        ensures
            r.base() == DMA_BASE + CHANNEL_STRIDE * ch.index(),
            r.regs() == (DmaRegisters {
                mar: 0,
                psr: pid.code() & 0xff,
                tcr: 0,
                marr: 0,
                cr: 0,
                mr: 0,
                sr: 0,
                ier: 0,
                idr: 0,
                imr: 0,
                isr: 0,
            }),
    {
        let address = DMA_BASE + ch.offset();
        DMAChannel {
            address,
            registers: DmaRegisters {
                mar: 0,
                psr: pid.id() & 0xff,
                tcr: 0,
                marr: 0,
                cr: 0,
                mr: 0,
                sr: 0,
                ier: 0,
                idr: 0,
                imr: 0,
                isr: 0,
            },
        }
    }

    pub fn base_address(&self) -> (r: u32)
        ensures
            r == self.base(),
    {
        self.address
    }

    pub fn registers(&self) -> (r: &DmaRegisters)
        ensures
            *r == self.regs(),
    {
        &self.registers
    }

    /// Points the channel at `buf`: the memory address register takes the
    /// buffer's address and no other register changes; the transfer count
    /// is left to the caller.
    pub fn set_buffer<T>(&mut self, buf: KO<T>)
        ensures
            final(self).regs() == (DmaRegisters { mar: buf.address(), ..old(self).regs() }),
            final(self).base() == old(self).base(),
    {
        self.registers.mar = buf.addr();
    }
}

} // verus!
