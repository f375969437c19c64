//! The discipline that every operation keeps across the foreign boundary,
//! whatever the engine answers: a message buffer that was initialised is
//! released exactly once before the operation returns, the buffer is used
//! only in between, the error number is read right after the call that
//! failed, and no operation goes on for ever.
use vstd::prelude::*;
use crate::error::Error;
use crate::exchange::{failed, next, run_from, ExchangeView, StepView};
use crate::kinds::{SocketKind, SocketOption};
use crate::ops::{
    start_bind, start_close, start_connect, start_describe, start_get, start_init, start_recv,
    start_send, start_set, start_socket, start_term, start_version,
};
use crate::wire::{CallView, OptionShape, OptionValueView, ReplyView};

verus! {

/// Whether `call` is the call whose reply `exchange` waits for.
pub open spec fn awaits(exchange: ExchangeView, call: CallView) -> bool {
    match exchange {
        ExchangeView::Version => call is Version,
        ExchangeView::Description => call is Strerror,
        ExchangeView::NewContext => call is Init,
        ExchangeView::NewSocket { kind } => call matches CallView::Socket { kind: code, .. }
            && code == kind.spec_code(),
        ExchangeView::Status => call is Term || call is Close || call is Bind || call is Connect
            || call is SetOption,
        ExchangeView::Slot { shape } => call matches CallView::GetOption { shape: asked, size, .. }
            && asked == shape && size == shape.spec_capacity(),
        ExchangeView::SendAlloc { data, .. } => call matches CallView::MsgInitSize { size }
            && size == data.len(),
        ExchangeView::SendFill { .. } => call is MsgFill,
        ExchangeView::SendSubmit => call is MsgSend,
        ExchangeView::RecvAlloc { .. } => call is MsgInit,
        ExchangeView::RecvSubmit { .. } => call is MsgRecv,
        ExchangeView::RecvSize { .. } => call is MsgSize,
        ExchangeView::RecvRead { len, .. } => call matches CallView::MsgRead { len: asked }
            && asked == len,
        ExchangeView::Errno { .. } => call is Errno,
        ExchangeView::Release { .. } => call is MsgClose,
    }
}

/// Whether a message buffer is initialised and not yet released while
/// `exchange` waits for its reply.  The buffer that the awaited call
/// itself initialises does not count; the one that it releases does.
pub open spec fn holds_buffer(exchange: ExchangeView) -> bool {
    match exchange {
        ExchangeView::SendFill { .. } => true,
        ExchangeView::SendSubmit => true,
        ExchangeView::RecvSubmit { .. } => true,
        ExchangeView::RecvSize { .. } => true,
        ExchangeView::RecvRead { .. } => true,
        ExchangeView::Errno { held, .. } => held,
        ExchangeView::Release { .. } => true,
        _ => false,
    }
}

/// Whether `step` is one that an operation can be at: it is over, or asks
/// for the call that its exchange waits for.
pub open spec fn coherent(step: StepView) -> bool {
    step matches StepView::Ask(call, exchange) ==> awaits(exchange, call)
}

/// The number of message buffers, none or one, that are initialised and
/// unreleased at `step`.
pub open spec fn held(step: StepView) -> nat {
    if step matches StepView::Ask(_, exchange) && holds_buffer(exchange) {
        1
    } else {
        0
    }
}

/// Whether `step` is the first of an operation: coherent, with no buffer.
pub open spec fn starts(step: StepView) -> bool {
    coherent(step) && held(step) == 0
}

/// Whether `call` initialises a message buffer.
pub open spec fn initialises(call: CallView) -> bool {
    call is MsgInit || call is MsgInitSize
}

/// Whether `call` works on an initialised message buffer.
pub open spec fn uses_buffer(call: CallView) -> bool {
    call is MsgFill || call is MsgSend || call is MsgRecv || call is MsgSize || call is MsgRead
        || call is MsgClose
}

/// Whether `call`, answered by `reply`, has initialised a message buffer.
pub open spec fn acquires(call: CallView, reply: ReplyView) -> bool {
    initialises(call) && (reply matches ReplyView::Code(rc) && !failed(rc))
}

/// Whether `reply` tells that `call` failed.  What the release of a
/// buffer returns is not read, and the reply to reading the error number
/// is that number.
pub open spec fn reports_failure(call: CallView, reply: ReplyView) -> bool {
    match reply {
        ReplyView::Code(rc) => failed(rc) && !(call is Errno) && !(call is MsgClose),
        ReplyView::Handle(addr) => addr == 0,
        ReplyView::Slot { rc, .. } => failed(rc),
        _ => false,
    }
}

/// The number of buffers initialised by the calls that the replies from
/// `replies[at]` on answer.
pub open spec fn acquisitions_from(step: StepView, replies: Seq<ReplyView>, at: int) -> nat
    decreases replies.len() - at,
{
    if at < 0 || at >= replies.len() {
        0
    } else {
        match step {
            StepView::Ask(call, exchange) => match next(exchange, replies[at]) {
                Some(following) => (if acquires(call, replies[at]) {
                    1nat
                } else {
                    0nat
                }) + acquisitions_from(following, replies, at + 1),
                None => 0,
            },
            StepView::Done(_) => 0,
        }
    }
}

/// The number of releases among the calls that the replies from
/// `replies[at]` on answer.
pub open spec fn releases_from(step: StepView, replies: Seq<ReplyView>, at: int) -> nat
    decreases replies.len() - at,
{
    if at < 0 || at >= replies.len() {
        0
    } else {
        match step {
            StepView::Ask(call, exchange) => match next(exchange, replies[at]) {
                Some(following) => (if call is MsgClose {
                    1nat
                } else {
                    0nat
                }) + releases_from(following, replies, at + 1),
                None => 0,
            },
            StepView::Done(_) => 0,
        }
    }
}

/// The most replies that an operation can still take at `step`.
pub open spec fn replies_left(step: StepView) -> nat {
    match step {
        StepView::Done(_) => 0,
        StepView::Ask(_, exchange) => match exchange {
            ExchangeView::SendAlloc { .. } => 5,
            ExchangeView::SendFill { .. } => 4,
            ExchangeView::SendSubmit => 3,
            ExchangeView::RecvAlloc { .. } => 5,
            ExchangeView::RecvSubmit { .. } => 4,
            ExchangeView::RecvSize { .. } => 3,
            ExchangeView::RecvRead { .. } => 2,
            ExchangeView::Errno { held, .. } => if held {
                2
            } else {
                1
            },
            ExchangeView::Release { .. } => 1,
            ExchangeView::Version => 1,
            ExchangeView::Description => 1,
            _ => 2,
        },
    }
}

/// Every operation of the binding starts coherent and without a buffer.
pub proof fn lemma_operations_start(
    handle: usize,
    io_threads: isize,
    kind: SocketKind,
    option: SocketOption,
    shape: OptionShape,
    value: OptionValueView,
    endpoint: Seq<char>,
    data: Seq<u8>,
    flags: i32,
    text: bool,
    error: Error,
)
    requires
        data.len() <= usize::MAX,
    ensures
        starts(start_version()),
        starts(start_init(io_threads)),
        starts(start_term(handle)),
        starts(start_socket(handle, kind)),
        starts(start_close(handle)),
        starts(start_bind(handle, endpoint)),
        starts(start_connect(handle, endpoint)),
        starts(start_get(handle, option, shape)),
        starts(start_set(handle, option, value)),
        starts(start_send(handle, data, flags)),
        starts(start_recv(handle, flags, text)),
        starts(start_describe(error)),
{
}

/// One reply takes a coherent step to a coherent step.  The buffer is
/// held afterwards exactly where the call initialised it, or where it was
/// held before and the call did not release it.  A buffer is initialised
/// only where none is held, and used or released only where one is.
pub proof fn lemma_step_keeps_account(call: CallView, exchange: ExchangeView, reply: ReplyView)
    requires
        awaits(exchange, call),
        next(exchange, reply) is Some,
    ensures
        coherent(next(exchange, reply)->Some_0),
        held(next(exchange, reply)->Some_0) == 1 <==> acquires(call, reply) || (holds_buffer(
            exchange,
        ) && !(call is MsgClose)),
        initialises(call) ==> !holds_buffer(exchange),
        uses_buffer(call) ==> holds_buffer(exchange),
        replies_left(next(exchange, reply)->Some_0) < replies_left(StepView::Ask(call, exchange)),
{
}

/// The error number is read right after the call that failed, before any
/// other call, and at no other time.
pub proof fn lemma_errno_read_at_once(call: CallView, exchange: ExchangeView, reply: ReplyView)
    requires
        awaits(exchange, call),
        next(exchange, reply) is Some,
    ensures
        reports_failure(call, reply) <==> next(exchange, reply)->Some_0 matches StepView::Ask(
            CallView::Errno,
            _,
        ),
{
}

/// Along every run that ends, each message buffer that was initialised is
/// released exactly once, and there is never more than one.
pub proof fn lemma_buffer_account(step: StepView, replies: Seq<ReplyView>, at: int)
    requires
        coherent(step),
        0 <= at,
        run_from(step, replies, at) matches Some(StepView::Done(_)),
    ensures
        releases_from(step, replies, at) == acquisitions_from(step, replies, at) + held(step),
        acquisitions_from(step, replies, at) + held(step) <= 1,
    decreases replies.len() - at,
{
    if at < replies.len() {
        match step {
            StepView::Ask(call, exchange) => {
                let following = next(exchange, replies[at])->Some_0;
                lemma_step_keeps_account(call, exchange, replies[at]);
                lemma_buffer_account(following, replies, at + 1);
            },
            StepView::Done(_) => {},
        }
    }
}

/// An operation that has returned has released every message buffer that
/// it initialised, exactly once, on the path of success as on that of
/// failure; and it initialised at most one.
pub proof fn lemma_buffer_released_once(step: StepView, replies: Seq<ReplyView>)
    requires
        starts(step),
        run_from(step, replies, 0) matches Some(StepView::Done(_)),
    ensures
        releases_from(step, replies, 0) == acquisitions_from(step, replies, 0),
        acquisitions_from(step, replies, 0) <= 1,
{
    lemma_buffer_account(step, replies, 0);
}

/// No operation takes more replies than `replies_left` says: at most five
/// from its start.
pub proof fn lemma_operation_ends(step: StepView, replies: Seq<ReplyView>, at: int)
    requires
        coherent(step),
        0 <= at <= replies.len(),
        run_from(step, replies, at) is Some,
    ensures
        replies.len() - at <= replies_left(step) <= 5,
    decreases replies.len() - at,
{
    if at < replies.len() {
        match step {
            StepView::Ask(call, exchange) => {
                let following = next(exchange, replies[at])->Some_0;
                lemma_step_keeps_account(call, exchange, replies[at]);
                lemma_operation_ends(following, replies, at + 1);
            },
            StepView::Done(_) => {},
        }
    }
}

} // verus!
