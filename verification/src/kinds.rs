//! The enumerations of the engine's interface and the numbers that stand
//! for them in a native call.
use vstd::prelude::*;

verus! {

/// The messaging pattern that a socket is created with.
#[derive(Debug, Clone, Copy, PartialEq, Eq, Structural)]
pub enum SocketKind {
    PAIR,
    PUB,
    SUB,
    REQ,
    REP,
    DEALER,
    ROUTER,
    PULL,
    PUSH,
    XPUB,
    XSUB,
}

impl SocketKind {
    /// The number that the engine knows this kind by.
    pub open spec fn spec_code(self) -> i32 {
        match self {
            SocketKind::PAIR => 0,
            SocketKind::PUB => 1,
            SocketKind::SUB => 2,
            SocketKind::REQ => 3,
            SocketKind::REP => 4,
            SocketKind::DEALER => 5,
            SocketKind::ROUTER => 6,
            SocketKind::PULL => 7,
            SocketKind::PUSH => 8,
            SocketKind::XPUB => 9,
            SocketKind::XSUB => 10,
        }
    }

    /// The number that the engine knows this kind by.
    #[verifier::when_used_as_spec(spec_code)]
    pub fn code(self) -> (code: i32)
        ensures
            code == self.spec_code(),
            0 <= code <= 10,
    {
        match self {
            SocketKind::PAIR => 0,
            SocketKind::PUB => 1,
            SocketKind::SUB => 2,
            SocketKind::REQ => 3,
            SocketKind::REP => 4,
            SocketKind::DEALER => 5,
            SocketKind::ROUTER => 6,
            SocketKind::PULL => 7,
            SocketKind::PUSH => 8,
            SocketKind::XPUB => 9,
            SocketKind::XSUB => 10,
        }
    }
}

/// A typed slot on a socket that can be read or written.
#[allow(non_camel_case_types)]
#[derive(Debug, Clone, Copy, PartialEq, Eq, Structural)]
pub enum SocketOption {
    HWM,
    SWAP,
    AFFINITY,
    IDENTITY,
    SUBSCRIBE,
    UNSUBSCRIBE,
    RATE,
    RECOVERY_IVL,
    MCAST_LOOP,
    SNDBUF,
    RCVBUF,
    RCVMORE,
    FD,
    EVENTS,
    TYPE,
    LINGER,
    RECONNECT_IVL,
    BACKLOG,
    RECOVERY_IVL_MSEC,
    RECONNECT_IVL_MAX,
}

impl SocketOption {
    /// The number that the engine knows this option by.
    pub open spec fn spec_code(self) -> i32 {
        match self {
            SocketOption::HWM => 1,
            SocketOption::SWAP => 3,
            SocketOption::AFFINITY => 4,
            SocketOption::IDENTITY => 5,
            SocketOption::SUBSCRIBE => 6,
            SocketOption::UNSUBSCRIBE => 7,
            SocketOption::RATE => 8,
            SocketOption::RECOVERY_IVL => 9,
            SocketOption::MCAST_LOOP => 10,
            SocketOption::SNDBUF => 11,
            SocketOption::RCVBUF => 12,
            SocketOption::RCVMORE => 13,
            SocketOption::FD => 14,
            SocketOption::EVENTS => 15,
            SocketOption::TYPE => 16,
            SocketOption::LINGER => 17,
            SocketOption::RECONNECT_IVL => 18,
            SocketOption::BACKLOG => 19,
            SocketOption::RECOVERY_IVL_MSEC => 20,
            SocketOption::RECONNECT_IVL_MAX => 21,
        }
    }

    /// The number that the engine knows this option by.
    #[verifier::when_used_as_spec(spec_code)]
    pub fn code(self) -> (code: i32)
        ensures
            code == self.spec_code(),
    {
        match self {
            SocketOption::HWM => 1,
            SocketOption::SWAP => 3,
            SocketOption::AFFINITY => 4,
            SocketOption::IDENTITY => 5,
            SocketOption::SUBSCRIBE => 6,
            SocketOption::UNSUBSCRIBE => 7,
            SocketOption::RATE => 8,
            SocketOption::RECOVERY_IVL => 9,
            SocketOption::MCAST_LOOP => 10,
            SocketOption::SNDBUF => 11,
            SocketOption::RCVBUF => 12,
            SocketOption::RCVMORE => 13,
            SocketOption::FD => 14,
            SocketOption::EVENTS => 15,
            SocketOption::TYPE => 16,
            SocketOption::LINGER => 17,
            SocketOption::RECONNECT_IVL => 18,
            SocketOption::BACKLOG => 19,
            SocketOption::RECOVERY_IVL_MSEC => 20,
            SocketOption::RECONNECT_IVL_MAX => 21,
        }
    }
}

/// The flags of a send or a receive; a call takes their bitwise union.
#[derive(Debug, Clone, Copy, PartialEq, Eq, Structural)]
pub enum SendOptions {
    /// Fail at once where the call would otherwise wait.
    DONTWAIT,
    /// More parts of the same message follow this one.
    SNDMORE,
}

impl SendOptions {
    /// The bit that the engine knows this flag by.
    pub open spec fn spec_code(self) -> i32 {
        match self {
            SendOptions::DONTWAIT => 1,
            SendOptions::SNDMORE => 2,
        }
    }

    /// The bit that the engine knows this flag by.
    #[verifier::when_used_as_spec(spec_code)]
    pub fn code(self) -> (code: i32)
        ensures
            code == self.spec_code(),
    {
        match self {
            SendOptions::DONTWAIT => 1,
            SendOptions::SNDMORE => 2,
        }
    }
}

/// No two socket kinds share a number.
pub proof fn lemma_socket_kind_codes_distinct(a: SocketKind, b: SocketKind)
    requires
        a.spec_code() == b.spec_code(),
    ensures
        a == b,
{
}

/// No two socket options share a number.
pub proof fn lemma_socket_option_codes_distinct(a: SocketOption, b: SocketOption)
    requires
        a.spec_code() == b.spec_code(),
    ensures
        a == b,
{
}

} // verus!
