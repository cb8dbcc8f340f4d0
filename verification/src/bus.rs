//! The transport the driver drives: an addressed register read/write bus,
//! and the errors a driver operation can end with.
//!
//! The bus itself (the wire protocol, its timing, its failures) is an
//! external collaborator; this driver only decides which registers get
//! which bytes in which order, and what it does with the bytes that come
//! back. The trait therefore carries a ghost view in three parts — the
//! history of successful register writes, the history of completed reads
//! with the byte each returned, and a count of every transaction
//! attempted, failed ones too — and every driver contract is stated over
//! them.

use vstd::prelude::*;
use crate::registers::rr;
use crate::registers::rw;
use crate::registers::RegRead;
use crate::registers::RegWrite;

verus! {

/// A register-addressed bus with one device per address. Implementations
/// choose the error type and decide when a transaction fails; the ghost
/// histories record every write that completed, every read that completed
/// with the byte it returned, and how many transactions were attempted in
/// all.
pub trait RegisterBus: Sized {
    /// The transport's own error for a failed transaction.
    type Error;

    /// The history of register writes that have completed on this bus,
    /// oldest first. The default stands for implementations outside the
    /// verified world, which no proof ever relies on.
    open spec fn writes(&self) -> Seq<RegWrite> {
        Seq::<RegWrite>::empty()
    }

    /// The history of register reads that have completed on this bus,
    /// oldest first, each with the byte the device answered. The default
    /// stands for implementations outside the verified world.
    open spec fn reads(&self) -> Seq<RegRead> {
        Seq::<RegRead>::empty()
    }

    /// How many transactions have been attempted on this bus, counting
    /// failed ones too. The default stands for implementations outside
    /// the verified world.
    open spec fn attempts(&self) -> nat {
        0
    }

    /// Writes one data byte to one register of the device at `address`:
    /// one transaction attempted. On success the write is appended to the
    /// write history; a failed transaction leaves it as it was. A write
    /// never extends the read history.
    fn write_register(&mut self, address: u8, register: u8, value: u8) -> (r: Result<
        (),
        Self::Error,
    >)
        ensures
            final(self).attempts() == old(self).attempts() + 1,
            final(self).reads() == old(self).reads(),
            r is Ok ==> final(self).writes() == old(self).writes().push(
                rw(address, register, value),
            ),
            r is Err ==> final(self).writes() == old(self).writes(),
    ;

    /// Reads one data byte back from one register of the device at
    /// `address`: one transaction attempted. What comes back is the
    /// device's to decide; on success the read and its byte are appended
    /// to the read history. A read never extends the write history.
    fn read_register(&mut self, address: u8, register: u8) -> (r: Result<u8, Self::Error>)
        ensures
            final(self).attempts() == old(self).attempts() + 1,
            final(self).writes() == old(self).writes(),
            r matches Ok(v) ==> final(self).reads() == old(self).reads().push(
                rr(address, register, v),
            ),
            r is Err ==> final(self).reads() == old(self).reads(),
    ;
}

/// What a driver operation can fail with.
#[derive(Debug, PartialEq, Eq)]
pub enum DriverError<E> {
    /// The transport reported a failed transaction; the transport's own
    /// error is passed through unchanged.
    Bus(E),
    /// Write verification was on, and reading `register` back returned
    /// `actual` instead of the `expected` byte just written. The chip is
    /// in an unknown state; the caller decides how to react.
    WriteVerification { register: u8, expected: u8, actual: u8 },
}

} // verus!
