//! Handles to the engine's objects.
//!
//! A handle is the address that the engine returned when the object was
//! created.  It is never null, cannot be copied, and is given up by the
//! operation that destroys the object.
use vstd::prelude::*;
use crate::kinds::SocketKind;

verus! {

/// The owner of the engine's background threads; sockets are created from it.
#[derive(Debug, PartialEq, Eq)]
pub struct Context {
    pub(crate) addr: usize,
}

impl View for Context {
    type V = usize;

    /// The address of the engine's object.
    closed spec fn view(&self) -> usize {
        self.addr
    }
}

impl Context {
    #[verifier::type_invariant]
    spec fn non_null(self) -> bool {
        self.addr != 0
    }

    /// Takes hold of the context that the engine created at `addr`.
    pub(crate) fn attach(addr: usize) -> (context: Context)
        requires
            addr != 0,
        ensures
            context@ == addr,
    {
        Context { addr }
    }

    /// The address of the engine's object, which is never null.
    pub fn addr(&self) -> (addr: usize)
        ensures
            addr == self@,
            addr != 0,
    {
        proof {
            use_type_invariant(self);
        }
        self.addr
    }
}

/// What a socket is to a contract: where the engine keeps it, and its kind.
pub struct SocketView {
    pub addr: usize,
    pub kind: SocketKind,
}

/// An endpoint for exchanging messages, of the kind it was created with.
#[derive(Debug, PartialEq, Eq)]
pub struct Socket {
    pub(crate) addr: usize,
    pub(crate) kind: SocketKind,
}

impl View for Socket {
    type V = SocketView;

    closed spec fn view(&self) -> SocketView {
        SocketView { addr: self.addr, kind: self.kind }
    }
}

impl Socket {
    #[verifier::type_invariant]
    spec fn non_null(self) -> bool {
        self.addr != 0
    }

    /// Takes hold of the socket of kind `kind` that the engine created at `addr`.
    pub(crate) fn attach(addr: usize, kind: SocketKind) -> (socket: Socket)
        requires
            addr != 0,
        ensures
            socket@ == (SocketView { addr, kind }),
    {
        Socket { addr, kind }
    }

    /// The address of the engine's object, which is never null.
    pub fn addr(&self) -> (addr: usize)
        ensures
            addr == self@.addr,
            addr != 0,
    {
        proof {
            use_type_invariant(self);
        }
        self.addr
    }

    /// The kind that the socket was created with.
    pub fn kind(&self) -> (kind: SocketKind)
        ensures
            kind == self@.kind,
    {
        self.kind
    }
}

} // verus!
