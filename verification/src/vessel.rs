//! The decision logic of the host I/O channel endpoints: how a raw poll
//! reply from the host maps to a poll outcome. The raw calls themselves are
//! host work; only their replies are interpreted here.
//!
//! A reply of zero always means "not ready yet"; a positive reply to a read
//! or write carries the transferred byte count plus one.

use vstd::prelude::*;

verus! {

/// The reading end of the host channel.
#[derive(Clone, Copy, Debug, PartialEq, Eq, Structural)]
pub struct VesselReader;

/// The writing end of the host channel.
#[derive(Clone, Copy, Debug, PartialEq, Eq, Structural)]
pub struct VesselWriter;

/// Both endpoints of the host channel, handed to the program's entry point.
#[derive(Clone, Copy, Debug, PartialEq, Eq, Structural)]
pub struct VesselEntry {
    pub reader: VesselReader,
    pub writer: VesselWriter,
}

pub fn _vessel_entry_construct() -> (r: VesselEntry)
    ensures
        r == (VesselEntry { reader: VesselReader, writer: VesselWriter }),
{
    VesselEntry { reader: VesselReader, writer: VesselWriter }
}

/// The outcome of polling a data transfer.
#[derive(Clone, Copy, Debug, PartialEq, Eq, Structural)]
pub enum VesselPoll {
    Pending,
    /// This many bytes were transferred.
    Ready(usize),
}

/// The outcome of polling a flush or close.
#[derive(Clone, Copy, Debug, PartialEq, Eq, Structural)]
pub enum VesselControlPoll {
    Pending,
    Done,
}

impl VesselReader {
    /// Interpret the host's raw reply to a read poll.
    pub fn resolve_read(raw: usize) -> (r: VesselPoll)
        ensures
            r is Pending <==> raw == 0,
            raw > 0 ==> r == VesselPoll::Ready((raw - 1) as usize),
    {
        if raw == 0 {
            VesselPoll::Pending
        } else {
            VesselPoll::Ready(raw - 1)
        }
    }
}

impl VesselWriter {
    /// Interpret the host's raw reply to a write poll.
    pub fn resolve_write(raw: usize) -> (r: VesselPoll)
        ensures
            r is Pending <==> raw == 0,
            raw > 0 ==> r == VesselPoll::Ready((raw - 1) as usize),
    {
        if raw == 0 {
            VesselPoll::Pending
        } else {
            VesselPoll::Ready(raw - 1)
        }
    }

    /// Interpret the host's raw reply to a flush poll. The host replies
    /// zero or one; anything else breaks its protocol.
    pub fn resolve_flush(raw: usize) -> (r: VesselControlPoll)
        requires
            raw <= 1,
        ensures
            r is Pending <==> raw == 0,
            r is Done <==> raw == 1,
    {
        if raw == 0 {
            VesselControlPoll::Pending
        } else {
            VesselControlPoll::Done
        }
    }

    /// Interpret the host's raw reply to a close poll; same protocol as a
    /// flush.
    pub fn resolve_close(raw: usize) -> (r: VesselControlPoll)
        requires
            raw <= 1,
        ensures
            r is Pending <==> raw == 0,
            r is Done <==> raw == 1,
    {
        if raw == 0 {
            VesselControlPoll::Pending
        } else {
            VesselControlPoll::Done
        }
    }
}

} // verus!
