//! Numeric constants of the native engine's interface.
use vstd::prelude::*;

verus! {

pub const ZMQ_POLLIN: i32 = 1;

pub const ZMQ_POLLOUT: i32 = 2;

pub const ZMQ_POLLERR: i32 = 4;

pub const ZMQ_MAX_VSM_SIZE: i32 = 30;

pub const ZMQ_DELIMITER: i32 = 31;

pub const ZMQ_VSM: i32 = 32;

pub const ZMQ_MSG_MORE: i32 = 1;

pub const ZMQ_MSG_SHARED: i32 = 128;

pub const ZMQ_MSG_MASK: i32 = 129;

/// Base above which the engine numbers the error codes of its own.
pub const ZMQ_HAUSNUMERO: i32 = 156384712;

pub const ENOTSUP: i32 = 156384713;

pub const EPROTONOSUPPORT: i32 = 156384714;

pub const ENOBUFS: i32 = 156384715;

pub const ENETDOWN: i32 = 156384716;

pub const EADDRINUSE: i32 = 156384717;

pub const EADDRNOTAVAIL: i32 = 156384718;

pub const ECONNREFUSED: i32 = 156384719;

pub const EINPROGRESS: i32 = 156384720;

pub const ENOTSOCK: i32 = 156384721;

pub const EFSM: i32 = 156384763;

pub const ENOCOMPATPROTO: i32 = 156384764;

pub const ETERM: i32 = 156384765;

pub const EMTHREAD: i32 = 156384766;

/// Every error code of the engine's own lies a fixed distance above the base.
pub proof fn lemma_codes_above_base()
    ensures
        ENOTSUP == ZMQ_HAUSNUMERO + 1,
        EPROTONOSUPPORT == ZMQ_HAUSNUMERO + 2,
        ENOBUFS == ZMQ_HAUSNUMERO + 3,
        ENETDOWN == ZMQ_HAUSNUMERO + 4,
        EADDRINUSE == ZMQ_HAUSNUMERO + 5,
        EADDRNOTAVAIL == ZMQ_HAUSNUMERO + 6,
        ECONNREFUSED == ZMQ_HAUSNUMERO + 7,
        EINPROGRESS == ZMQ_HAUSNUMERO + 8,
        ENOTSOCK == ZMQ_HAUSNUMERO + 9,
        EFSM == ZMQ_HAUSNUMERO + 51,
        ENOCOMPATPROTO == ZMQ_HAUSNUMERO + 52,
        ETERM == ZMQ_HAUSNUMERO + 53,
        EMTHREAD == ZMQ_HAUSNUMERO + 54,
{
}

} // verus!
