use vstd::prelude::*;

use crate::bus::{I2cRead, I2cWrite};
use crate::frame::{
    decode_frame, decode_spec, measurement_of, spec_checksum, Error, Measurement, FRAME_LEN,
};

verus! {

/// Bus address the sensor answers on (7-bit addressing).
pub const DEFAULT_I2C_ADDR: u8 = 0x40;

/// Command byte that puts the sensor under control of the bus.
pub const SELECT_I2C_CMD: u8 = 0x88;

/// Handle on one sensor: the bus transport and the address it is reached at.
#[derive(Debug)]
pub struct Hm3301<I2C> {
    i2c: I2C,
    address: u8,
}

/// The result of the mode-select command, given the outcome of its write:
/// success stays success, a transport error is wrapped.
pub fn select_outcome<E>(written: Result<(), E>) -> (r: nb::Result<(), Error<E>>)
    ensures
        match written {
            Ok(()) => r == Ok::<(), nb::Error<Error<E>>>(()),
            Err(e) => r == Err::<(), nb::Error<Error<E>>>(nb::Error::Other(Error::I2C(e))),
        },
{
    match written {
        Ok(()) => Ok(()),
        Err(e) => Err(nb::Error::Other(Error::I2C(e))),
    }
}

/// The result of a reading, given the outcome of the bus read and the
/// bytes it left in `buf`: a transport error is passed on without looking
/// at the bytes, otherwise the frame is decoded.
pub fn measurement_from_read<E>(read: Result<(), E>, buf: &[u8; 29]) -> (r: Result<
    Measurement,
    Error<E>,
>)
    ensures
        match read {
            Ok(()) => r == decode_spec::<E>(buf@),
            Err(e) => r == Err::<Measurement, Error<E>>(Error::I2C(e)),
        },
{
    match read {
        Ok(()) => decode_frame(buf.as_slice()),
        Err(e) => Err(Error::I2C(e)),
    }
}

impl<I2C> Hm3301<I2C> {
    /// The address this handle talks to.
    pub closed spec fn addr(&self) -> u8 {
        self.address
    }

    /// The transport this handle runs its transactions on.
    pub closed spec fn bus(&self) -> I2C {
        self.i2c
    }

    /// Binds `i2c` at the default address. Performs no bus transaction.
    pub fn new(i2c: I2C) -> (r: Self)
        ensures
            r.addr() == DEFAULT_I2C_ADDR,
            r.bus() == i2c,
    {
        Hm3301 { i2c, address: DEFAULT_I2C_ADDR }
    }
}

impl<I2C> Hm3301<I2C> where I2C: I2cWrite {
    /// Writes the single byte `SELECT_I2C_CMD` to the device, selecting
    /// bus-driven mode: exactly one write transaction, at the handle's
    /// address. Never reports `WouldBlock`; a failed write is returned as a
    /// transport error.
    pub fn enable_i2c(&mut self) -> (r: nb::Result<(), Error<I2C::Error>>)
        ensures
            final(self).addr() == old(self).addr(),
            final(self).bus().writes() == old(self).bus().writes().push(
                (old(self).addr(), seq![SELECT_I2C_CMD]),
            ),
            match r {
                Ok(()) => true,
                Err(nb::Error::Other(Error::I2C(_))) => true,
                _ => false,
            },
    {
        let payload: [u8; 1] = [SELECT_I2C_CMD];
        assert(payload@ =~= seq![SELECT_I2C_CMD]);
        let written = self.i2c.write(self.address, payload.as_slice());
        select_outcome(written)
    }
}

impl<I2C> Hm3301<I2C> where I2C: I2cRead {
    /// Reads one frame from the device and decodes it: exactly one read
    /// transaction of `FRAME_LEN` bytes, at the handle's address. A
    /// measurement only comes from a frame whose last byte is the checksum
    /// constant; a failed read is returned as a transport error.
    pub fn read_measurement(&mut self) -> (r: Result<Measurement, Error<I2C::Error>>)
        ensures
            final(self).addr() == old(self).addr(),
            final(self).bus().reads() == old(self).bus().reads().push(
                (old(self).addr(), FRAME_LEN as nat),
            ),
            match r {
                Ok(m) => exists|b: Seq<u8>|
                    b.len() == FRAME_LEN && b[28] == spec_checksum() && m == measurement_of(b),
                Err(Error::ChecksumFailed) => true,
                Err(Error::I2C(_)) => true,
                Err(Error::InvalidInputData) => false,
            },
    {
        let mut buf: [u8; 29] = [0; 29];
        let read = self.i2c.read(self.address, &mut buf);
        measurement_from_read(read, &buf)
    }
}

} // verus!
