//! GSP RPC reply policies and reply validation.

use vstd::prelude::*;

verus! {

/// How a GSP RPC command's reply is handled.
#[derive(Clone, Copy, Debug, PartialEq, Eq, Structural)]
pub enum RpcReplyPolicy {
    /// Return immediately after issuing the command.
    NoWait,
    /// Like `NoWait`, without an RPC sequence number.
    NoSeq,
    /// Wait for and receive the whole reply.
    Recv,
    /// Wait for a specific reply and discard it.
    Poll,
}

impl RpcReplyPolicy {
    /// The policy with wire code `v` (0 to 3).
    pub fn from_u8(v: u8) -> (p: Option<Self>)
        ensures
            p == match v {
                0 => Some(RpcReplyPolicy::NoWait),
                1 => Some(RpcReplyPolicy::NoSeq),
                2 => Some(RpcReplyPolicy::Recv),
                3 => Some(RpcReplyPolicy::Poll),
                _ => None,
            },
    {
        match v {
            0 => Some(RpcReplyPolicy::NoWait),
            1 => Some(RpcReplyPolicy::NoSeq),
            2 => Some(RpcReplyPolicy::Recv),
            3 => Some(RpcReplyPolicy::Poll),
            _ => None,
        }
    }

    pub open spec fn spec_waits(self) -> bool {
        self == RpcReplyPolicy::Recv || self == RpcReplyPolicy::Poll
    }

    pub open spec fn spec_emits_sequence(self) -> bool {
        self != RpcReplyPolicy::NoSeq
    }

    /// `Recv` and `Poll` wait for a reply.
    pub fn waits(self) -> (b: bool)
        ensures
            b == self.spec_waits(),
    {
        match self {
            RpcReplyPolicy::Recv | RpcReplyPolicy::Poll => true,
            _ => false,
        }
    }

    /// Every policy but `NoSeq` emits a sequence number.
    pub fn emits_sequence(self) -> (b: bool)
        ensures
            b == self.spec_emits_sequence(),
    {
        match self {
            RpcReplyPolicy::NoSeq => false,
            _ => true,
        }
    }
}

#[derive(Clone, Copy, Debug, PartialEq, Eq, Structural)]
pub struct RpcHeader {
    pub function: u32,
    pub sequence: u32,
    pub payload_bytes: u32,
    pub policy: RpcReplyPolicy,
}

#[derive(Clone, Copy, Debug, PartialEq, Eq, Structural)]
pub enum RpcError {
    SequenceMismatch,
    Timeout,
    Fault,
    BufferTooSmall,
    PolicyDenied,
}

impl RpcError {
    /// Operator-facing description.
    pub fn message(self) -> (s: &'static str)
        ensures
            s@ == match self {
                RpcError::SequenceMismatch => "rpc sequence mismatch"@,
                RpcError::Timeout => "rpc timeout"@,
                RpcError::Fault => "rpc fault"@,
                RpcError::BufferTooSmall => "rpc buffer too small"@,
                RpcError::PolicyDenied => "rpc policy denied"@,
            },
    {
        match self {
            RpcError::SequenceMismatch => "rpc sequence mismatch",
            RpcError::Timeout => "rpc timeout",
            RpcError::Fault => "rpc fault",
            RpcError::BufferTooSmall => "rpc buffer too small",
            RpcError::PolicyDenied => "rpc policy denied",
        }
    }
}

/// Whether a reply answers `request`: anything does under a policy that does
/// not wait; otherwise its function number must be the request's, and so must
/// its sequence number under a policy that numbers its requests.
pub open spec fn spec_validate_reply(request: RpcHeader, reply_fn: u32, reply_seq: u32) -> Result<
    (),
    RpcError,
> {
    if !request.policy.spec_waits() {
        Ok(())
    } else if reply_fn != request.function {
        Err(RpcError::Fault)
    } else if request.policy.spec_emits_sequence() && reply_seq != request.sequence {
        Err(RpcError::SequenceMismatch)
    } else {
        Ok(())
    }
}

/// Validates a reply against the request under its policy.
pub fn validate_reply(request: &RpcHeader, reply_fn: u32, reply_seq: u32) -> (r: Result<(), RpcError>)
    ensures
        r == spec_validate_reply(*request, reply_fn, reply_seq),
{
    if !request.policy.waits() {
        return Ok(());
    }
    if reply_fn != request.function {
        return Err(RpcError::Fault);
    }
    if request.policy.emits_sequence() && reply_seq != request.sequence {
        return Err(RpcError::SequenceMismatch);
    }
    Ok(())
}

/// An RPC fault always ends the session: it is never marked Online.
pub fn hermes_rpc_fault_is_terminal() -> (b: bool)
    ensures
        b,
{
    true
}

} // verus!
