//! The cooperative overlay on the virtual-socket transport, as far as it
//! decides: what a poll loop does after one non-blocking attempt, and when a
//! connection that is being set up counts as established. The sockets, the
//! readiness reactor and the waiting are the caller's part.

use vstd::prelude::*;

verus! {

/// The context id that stands for every local address.
pub const VMADDR_CID_ANY: u32 = 0xffff_ffff;

/// The code of Linux for an operation that has begun and not yet ended.
pub const EINPROGRESS: i32 = 115;

/// The code of Linux for an operation that is under way already.
pub const EALREADY: i32 = 114;

/// The address of an endpoint: a context id and a port.
#[derive(Clone, Copy, Debug, PartialEq, Eq, Structural)]
pub struct SocketAddr {
    pub cid: u32,
    pub port: u32,
}

/// How one non-blocking attempt to read, write or accept ended.
#[derive(Clone, Copy, Debug, PartialEq, Eq, Structural)]
pub enum Attempt {
    /// It moved the given number of bytes, or accepted a connection.
    Done(usize),
    /// The descriptor was not ready after all.
    WouldBlock,
    /// It failed for another reason.
    Failed,
}

/// What a poll loop does after an attempt.
#[derive(Clone, Copy, Debug, PartialEq, Eq, Structural)]
pub enum Step {
    /// Report the result; before that, clear the readiness where `rearm` is
    /// set, so that the reactor is asked again.
    Finish { rearm: bool },
    /// Clear the readiness and wait for the reactor.
    Wait,
    /// Report the failure.
    Fail,
}

/// Where a connection that is being set up stands.
#[derive(Clone, Copy, Debug, PartialEq, Eq, Structural)]
pub enum Connect {
    /// The connection stands.
    Established,
    /// Wait until the socket is writable, then look again.
    Pending,
    /// The connection failed.
    Failed,
}

impl SocketAddr {
    /// The address with the given context id and port.
    pub fn new(cid: u32, port: u32) -> (addr: SocketAddr)
        ensures
            addr.cid == cid,
            addr.port == port,
    {
        SocketAddr { cid, port }
    }
}

/// What follows an attempt to move up to `wanted` bytes: a transfer ends the
/// poll, and a short one that moved something clears the readiness first; a
/// descriptor that would block is waited for; any other failure ends the
/// poll.
pub open spec fn after_transfer_spec(attempt: Attempt, wanted: nat) -> Step {
    match attempt {
        Attempt::Done(n) => Step::Finish { rearm: 0 < n && n < wanted },
        Attempt::WouldBlock => Step::Wait,
        Attempt::Failed => Step::Fail,
    }
}

/// What follows an attempt to accept a connection.
pub open spec fn after_accept_spec(attempt: Attempt) -> Step {
    match attempt {
        Attempt::Done(_) => Step::Finish { rearm: false },
        Attempt::WouldBlock => Step::Wait,
        Attempt::Failed => Step::Fail,
    }
}

/// Whether an error code says that a connection is being set up.
pub open spec fn in_progress(code: Option<i32>) -> bool {
    code == Some(EINPROGRESS) || code == Some(EALREADY)
}

/// What a poll loop does after an attempt to read or write up to `wanted`
/// bytes.
pub fn after_transfer(attempt: Attempt, wanted: usize) -> (step: Step)
    ensures
        step == after_transfer_spec(attempt, wanted as nat),
{
    match attempt {
        Attempt::Done(n) => Step::Finish { rearm: 0 < n && n < wanted },
        Attempt::WouldBlock => Step::Wait,
        Attempt::Failed => Step::Fail,
    }
}

/// What a poll loop does after an attempt to accept a connection.
pub fn after_accept(attempt: Attempt) -> (step: Step)
    ensures
        step == after_accept_spec(attempt),
{
    match attempt {
        Attempt::Done(_) => Step::Finish { rearm: false },
        Attempt::WouldBlock => Step::Wait,
        Attempt::Failed => Step::Fail,
    }
}

/// Tells whether the code of an error says that a connection is being set
/// up.
pub fn is_in_progress(code: Option<i32>) -> (b: bool)
    ensures
        b == in_progress(code),
{
    match code {
        Some(code) => code == EINPROGRESS || code == EALREADY,
        None => false,
    }
}

/// Where a connection stands after the call that starts it: `failure` is
/// `None` when the call succeeded and else holds the code of its error, if
/// the error has one.
pub fn connect_started(failure: Option<Option<i32>>) -> (state: Connect)
    ensures
        state == match failure {
            None => Connect::Established,
            Some(code) => if in_progress(code) {
                Connect::Pending
            } else {
                Connect::Failed
            },
        },
{
    match failure {
        None => Connect::Established,
        Some(code) => {
            if is_in_progress(code) {
                Connect::Pending
            } else {
                Connect::Failed
            }
        },
    }
}

/// Where a pending connection stands once the socket is writable: a pending
/// socket error ends it, a peer address shows that it stands, and else the
/// wait goes on.
pub fn connect_woken(pending_error: bool, has_peer: bool) -> (state: Connect)
    ensures
        state == if pending_error {
            Connect::Failed
        } else if has_peer {
            Connect::Established
        } else {
            Connect::Pending
        },
{
    if pending_error {
        Connect::Failed
    } else if has_peer {
        Connect::Established
    } else {
        Connect::Pending
    }
}

} // verus!
