//! Handle for a TI TMP006 contactless temperature sensor on an I2C bus.

use vstd::prelude::*;

verus! {

pub struct TMP006Params {
    /// The sensor's I2C address.
    pub addr: u16,
}

/// The sensor, reached through the I2C device `I2C` at address `addr`.
pub struct TMP006<I2C> {
    i2c: I2C,
    addr: u16,
}

impl<I2C> TMP006<I2C> {
    pub closed spec fn device(self) -> I2C {
        self.i2c
    }

    pub closed spec fn address(self) -> u16 {
        self.addr
    }

    pub fn new(i2c_device: I2C, params: TMP006Params) -> (r: TMP006<I2C>)
        ensures
            r.device() == i2c_device,
            r.address() == params.addr,
    {
        TMP006 { i2c: i2c_device, addr: params.addr }
    }

    pub fn addr(&self) -> (r: u16)
        ensures
            r == self.address(),
    {
        self.addr
    }
}

} // verus!
