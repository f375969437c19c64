//! The closed set of failures that the engine reports, and its mapping to
//! and from the engine's error numbers.
use vstd::prelude::*;
use crate::constants;

verus! {

/// Why a native call failed: one of thirteen named kinds, or the raw error
/// number where it is none of theirs.
#[allow(non_camel_case_types)]
#[derive(Debug, Clone, Copy, PartialEq, Eq, Structural)]
pub enum Error {
    ENOTSUP,
    EPROTONOSUPPORT,
    ENOBUFS,
    ENETDOWN,
    EADDRINUSE,
    EADDRNOTAVAIL,
    ECONNREFUSED,
    EINPROGRESS,
    ENOTSOCK,
    EFSM,
    ENOCOMPATPROTO,
    ETERM,
    EMTHREAD,
    UNKNOWN(i32),
}

impl Error {
    /// The error number that stands for this error.
    pub open spec fn errno(self) -> i32 {
        match self {
            Error::ENOTSUP => constants::ENOTSUP,
            Error::EPROTONOSUPPORT => constants::EPROTONOSUPPORT,
            Error::ENOBUFS => constants::ENOBUFS,
            Error::ENETDOWN => constants::ENETDOWN,
            Error::EADDRINUSE => constants::EADDRINUSE,
            Error::EADDRNOTAVAIL => constants::EADDRNOTAVAIL,
            Error::ECONNREFUSED => constants::ECONNREFUSED,
            Error::EINPROGRESS => constants::EINPROGRESS,
            Error::ENOTSOCK => constants::ENOTSOCK,
            Error::EFSM => constants::EFSM,
            Error::ENOCOMPATPROTO => constants::ENOCOMPATPROTO,
            Error::ETERM => constants::ETERM,
            Error::EMTHREAD => constants::EMTHREAD,
            Error::UNKNOWN(code) => code,
        }
    }

    /// Whether this is one of the thirteen named kinds.
    pub open spec fn is_named(self) -> bool {
        !(self is UNKNOWN)
    }

    /// Whether this is an error that some error number stands for: a
    /// named kind, or an escape whose number no named kind has.
    pub open spec fn is_canonical(self) -> bool {
        self matches Error::UNKNOWN(code) ==> !has_name(code)
    }
}

/// Whether `code` is the error number of a named kind.
pub open spec fn has_name(code: i32) -> bool {
    exists|kind: Error| kind.is_named() && #[trigger] kind.errno() == code
}

/// The error that the error number `code` stands for: the named kind with
/// that number, or the escape carrying `code` where there is none.
pub open spec fn error_of(code: i32) -> Error {
    if has_name(code) {
        choose|kind: Error| kind.is_named() && #[trigger] kind.errno() == code
    } else {
        Error::UNKNOWN(code)
    }
}

/// No two named kinds share an error number.
pub proof fn lemma_named_numbers_distinct(a: Error, b: Error)
    requires
        a.is_named(),
        b.is_named(),
        a.errno() == b.errno(),
    ensures
        a == b,
{
}

/// The number of a named kind stands for that kind.
pub proof fn lemma_error_of_errno(kind: Error)
    requires
        kind.is_named(),
    ensures
        error_of(kind.errno()) == kind,
{
    assert(has_name(kind.errno()));
    let found = choose|k: Error| k.is_named() && #[trigger] k.errno() == kind.errno();
    lemma_named_numbers_distinct(found, kind);
}

/// The error that an error number stands for has that number.
pub proof fn lemma_errno_of_error(code: i32)
    ensures
        error_of(code).errno() == code,
        error_of(code).is_canonical(),
{
}

/// Maps an error number of the engine to the error it stands for.
pub fn errno_to_error(code: i32) -> (error: Error)
    ensures
        error == error_of(code),
        error.errno() == code,
        error.is_canonical(),
{
    let error = if code == constants::ENOTSUP {
        Error::ENOTSUP
    } else if code == constants::EPROTONOSUPPORT {
        Error::EPROTONOSUPPORT
    } else if code == constants::ENOBUFS {
        Error::ENOBUFS
    } else if code == constants::ENETDOWN {
        Error::ENETDOWN
    } else if code == constants::EADDRINUSE {
        Error::EADDRINUSE
    } else if code == constants::EADDRNOTAVAIL {
        Error::EADDRNOTAVAIL
    } else if code == constants::ECONNREFUSED {
        Error::ECONNREFUSED
    } else if code == constants::EINPROGRESS {
        Error::EINPROGRESS
    } else if code == constants::ENOTSOCK {
        Error::ENOTSOCK
    } else if code == constants::EFSM {
        Error::EFSM
    } else if code == constants::ENOCOMPATPROTO {
        Error::ENOCOMPATPROTO
    } else if code == constants::ETERM {
        Error::ETERM
    } else if code == constants::EMTHREAD {
        Error::EMTHREAD
    } else {
        Error::UNKNOWN(code)
    };
    proof {
        if error.is_named() {
            lemma_error_of_errno(error);
        } else {
            assert forall|kind: Error| kind.is_named() implies #[trigger] kind.errno() != code by {}
        }
    }
    error
}

/// Maps an error to the error number that stands for it.
pub fn error_to_errno(error: Error) -> (code: i32)
    ensures
        code == error.errno(),
{
    match error {
        Error::ENOTSUP => constants::ENOTSUP,
        Error::EPROTONOSUPPORT => constants::EPROTONOSUPPORT,
        Error::ENOBUFS => constants::ENOBUFS,
        Error::ENETDOWN => constants::ENETDOWN,
        Error::EADDRINUSE => constants::EADDRINUSE,
        Error::EADDRNOTAVAIL => constants::EADDRNOTAVAIL,
        Error::ECONNREFUSED => constants::ECONNREFUSED,
        Error::EINPROGRESS => constants::EINPROGRESS,
        Error::ENOTSOCK => constants::ENOTSOCK,
        Error::EFSM => constants::EFSM,
        Error::ENOCOMPATPROTO => constants::ENOCOMPATPROTO,
        Error::ETERM => constants::ETERM,
        Error::EMTHREAD => constants::EMTHREAD,
        Error::UNKNOWN(code) => code,
    }
}

} // verus!
