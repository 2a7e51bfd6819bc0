use vstd::prelude::*;

verus! {

/// A log of read transactions: the address of each and the number of bytes
/// asked for. It lives in proofs only; a transport that implements
/// `I2cRead` outside of verified code never builds one.
pub type ReadLog = Seq<(u8, nat)>;

/// A log of write transactions: the address of each and the bytes it
/// carried. It lives in proofs only, as `ReadLog` does.
pub type WriteLog = Seq<(u8, Seq<u8>)>;

/// A transport that can run a read transaction on the bus.
pub trait I2cRead {
    /// The transport's own failure, passed on untouched by the driver.
    type Error;

    /// The read transactions run so far, in order: the address of each and
    /// the number of bytes asked for.
    spec fn reads(&self) -> ReadLog;

    /// Reads `buffer.len()` bytes from the device at `address` into `buffer`.
    /// Each call is one read transaction, whatever its outcome.
    fn read(&mut self, address: u8, buffer: &mut [u8]) -> (r: Result<(), Self::Error>)
        ensures
            final(self).reads() == old(self).reads().push((address, old(buffer)@.len())),
    ;
}

/// A transport that can run a write transaction on the bus.
pub trait I2cWrite {
    /// The transport's own failure, passed on untouched by the driver.
    type Error;

    /// The write transactions run so far, in order: the address of each and
    /// the bytes it carried.
    spec fn writes(&self) -> WriteLog;

    /// Writes `bytes` to the device at `address`. Each call is one write
    /// transaction, whatever its outcome.
    fn write(&mut self, address: u8, bytes: &[u8]) -> (r: Result<(), Self::Error>)
        ensures
            final(self).writes() == old(self).writes().push((address, bytes@)),
    ;
}

} // verus!
