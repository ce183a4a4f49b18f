use vstd::prelude::*;

verus! {

/// Why a mailbox refused a message.
#[derive(Clone, Copy, Debug, PartialEq, Eq, Structural)]
pub enum Reason {
    Full,
}

/// Failures of local delivery and of outbound transport.
#[derive(Clone, Copy, Debug, PartialEq, Eq, Structural)]
pub enum Error {
    /// The local mailbox is under backpressure; the caller may retry.
    Transport(Reason),
    /// The region's mailbox is closed: the region moved or was destroyed.
    RegionNotFound(u64),
    /// A worker queue refused the task because its worker has stopped.
    ScheduleFailure,
    /// The address resolver could not produce an address.
    ResolveFailure,
    /// The connection pool could not send a message.
    SendFailure,
}

} // verus!
