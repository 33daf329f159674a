//! The two-wire bus port that the driver talks through.
//!
//! The driver is polymorphic over any implementation of [`I2cBus`]. A
//! register write sends the register address followed by the value; a block
//! read sends the register address and reads back a run of bytes starting
//! there. Implementations report failures through [`BusErrorKind`], which
//! mirrors the usual classification of two-wire bus faults.
//!
//! Every implementation carries a ghost log of the register transactions it
//! has completed, as a sequence of [`BusEvent`]s: each successful write
//! appends the register and the byte written, each successful read appends
//! the register and the bytes it returned, and a failed transaction appends
//! nothing. The driver's contracts state its bus traffic over this log.

use vstd::prelude::*;

verus! {

/// Which part of a transaction went unacknowledged.
#[derive(Debug, Clone, Copy, PartialEq, Eq, Structural)]
pub enum NoAcknowledgeSource {
    /// The device did not acknowledge its address.
    Address,
    /// The device did not acknowledge a data byte.
    Data,
    /// It is unknown whether address or data went unacknowledged.
    Unknown,
}

/// Classification of a failed bus transaction.
#[derive(Debug, Clone, Copy, PartialEq, Eq, Structural)]
pub enum BusErrorKind {
    /// A bus-level error such as a misplaced START or STOP condition.
    Bus,
    /// Bus arbitration was lost to another master.
    ArbitrationLoss,
    /// Some byte of the transaction was not acknowledged.
    NoAcknowledge(NoAcknowledgeSource),
    /// The peripheral receive buffer was overrun.
    Overrun,
    /// Any other transport failure.
    Other,
}

/// One completed register transaction, as recorded in a bus's ghost log.
pub enum BusEvent {
    /// A write of `value` into register `reg`.
    Write { reg: u8, value: u8 },
    /// A read starting at register `reg` that returned `data`.
    Read { reg: u8, data: Seq<u8> },
}

/// A byte-oriented two-wire bus transport.
///
/// Nothing is assumed about the device on the other end: a read may return
/// any bytes, and any transaction may fail. What every implementation must
/// keep to is the shape of the traffic: a successful block read hands back
/// exactly as many bytes as were asked for, and the ghost log grows by
/// exactly the transaction that completed — so a caller's contract can say
/// which registers it touched, in which order, and with which values.
pub trait I2cBus {
    /// The register transactions completed so far, oldest first.
    ///
    /// A verified implementation overrides this with its own record and
    /// shows that each method appends exactly the transaction that
    /// completed. An unverified implementation may leave the default empty
    /// log in place; it is then trusted to move the bytes the same way.
    open spec fn spec_log(&self) -> Seq<BusEvent> {
        Seq::empty()
    }

    /// Writes `value` into device register `reg` at bus address `addr`,
    /// as the two-byte sequence `[reg, value]`.
    fn write_register(&mut self, addr: u8, reg: u8, value: u8) -> (r: Result<(), BusErrorKind>)
        ensures
            r matches Ok(_) ==> final(self).spec_log() == old(self).spec_log().push(
                (BusEvent::Write { reg, value }),
            ),
            r matches Err(_) ==> final(self).spec_log() == old(self).spec_log(),
    ;

    /// Writes the register address `reg` to the device at `addr`, then
    /// reads back `n` bytes starting at that register.
    fn read_register_block(&mut self, addr: u8, reg: u8, n: usize) -> (r: Result<
        Vec<u8>,
        BusErrorKind,
    >)
        ensures
            r matches Ok(bytes) ==> bytes@.len() == n,
            r matches Ok(bytes) ==> final(self).spec_log() == old(self).spec_log().push(
                (BusEvent::Read { reg, data: bytes@ }),
            ),
            r matches Err(_) ==> final(self).spec_log() == old(self).spec_log(),
    ;
}

} // verus!
