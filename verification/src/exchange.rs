//! The course of one operation: which native call comes next, and what the
//! operation returns, for every reply that the engine can give.
//!
//! An operation starts with a [`Step`] that asks for its first call.  The
//! program that performs the call hands the reply to [`resume`], which asks
//! for the next call or ends the operation with its outcome.
use vstd::prelude::*;
use crate::error::{errno_to_error, error_of};
use crate::handle::{Context, Socket, SocketView};
use crate::kinds::SocketKind;
use crate::text::{bytes_to_text, text_of};
use crate::wire::{
    Call, CallView, OptionShape, OptionValue, OptionValueView, Outcome, OutcomeView, Reply,
    ReplyView, ResultShape,
};

verus! {

/// An operation under way: the reply that it waits for, and what it keeps
/// for the steps that follow.
#[derive(Debug, PartialEq, Eq)]
pub enum Exchange {
    /// Waits for the engine's version.
    Version,
    /// Waits for the description of an error.
    Description,
    /// Waits for the address of a new context.
    NewContext,
    /// Waits for the address of a new socket of kind `kind`.
    NewSocket { kind: SocketKind },
    /// Waits for the status of a call that returns nothing else.
    Status,
    /// Waits for the status of the getter and the slot of `shape` it filled.
    Slot { shape: OptionShape },
    /// Waits for the status of initialising a buffer for `data`.
    SendAlloc { socket: usize, flags: i32, data: Vec<u8> },
    /// Waits for the payload to be copied into the buffer.
    SendFill { socket: usize, flags: i32 },
    /// Waits for the status of the submission.
    SendSubmit,
    /// Waits for the status of initialising an empty buffer.
    RecvAlloc { socket: usize, flags: i32, text: bool },
    /// Waits for the status of the receive.
    RecvSubmit { text: bool },
    /// Waits for the size of the received message.
    RecvSize { text: bool },
    /// Waits for the `len` bytes of the received message.
    RecvRead { len: usize, text: bool },
    /// Waits for the error number of the call that failed; `held` says
    /// whether a message buffer is still to be released.
    Errno { result: ResultShape, held: bool },
    /// Waits for the message buffer to be released; `outcome` is then returned.
    Release { outcome: Outcome },
}

/// An exchange with what it keeps as sequences.
pub enum ExchangeView {
    Version,
    Description,
    NewContext,
    NewSocket { kind: SocketKind },
    Status,
    Slot { shape: OptionShape },
    SendAlloc { socket: usize, flags: i32, data: Seq<u8> },
    SendFill { socket: usize, flags: i32 },
    SendSubmit,
    RecvAlloc { socket: usize, flags: i32, text: bool },
    RecvSubmit { text: bool },
    RecvSize { text: bool },
    RecvRead { len: usize, text: bool },
    Errno { result: ResultShape, held: bool },
    Release { outcome: OutcomeView },
}

impl View for Exchange {
    type V = ExchangeView;

    open spec fn view(&self) -> ExchangeView {
        match self {
            Exchange::Version => ExchangeView::Version,
            Exchange::Description => ExchangeView::Description,
            Exchange::NewContext => ExchangeView::NewContext,
            Exchange::NewSocket { kind } => ExchangeView::NewSocket { kind: *kind },
            Exchange::Status => ExchangeView::Status,
            Exchange::Slot { shape } => ExchangeView::Slot { shape: *shape },
            Exchange::SendAlloc { socket, flags, data } => ExchangeView::SendAlloc {
                socket: *socket,
                flags: *flags,
                data: data@,
            },
            Exchange::SendFill { socket, flags } => ExchangeView::SendFill {
                socket: *socket,
                flags: *flags,
            },
            Exchange::SendSubmit => ExchangeView::SendSubmit,
            Exchange::RecvAlloc { socket, flags, text } => ExchangeView::RecvAlloc {
                socket: *socket,
                flags: *flags,
                text: *text,
            },
            Exchange::RecvSubmit { text } => ExchangeView::RecvSubmit { text: *text },
            Exchange::RecvSize { text } => ExchangeView::RecvSize { text: *text },
            Exchange::RecvRead { len, text } => ExchangeView::RecvRead { len: *len, text: *text },
            Exchange::Errno { result, held } => ExchangeView::Errno { result: *result, held: *held },
            Exchange::Release { outcome } => ExchangeView::Release { outcome: outcome@ },
        }
    }
}

/// Where an operation stands between two native calls.
#[derive(Debug, PartialEq, Eq)]
pub enum Step {
    /// The call to perform next, and the exchange to resume with its reply.
    Ask(Call, Exchange),
    /// The operation is over and returns this.
    Done(Outcome),
}

/// A step with its call, exchange or outcome by their views.
pub enum StepView {
    Ask(CallView, ExchangeView),
    Done(OutcomeView),
}

impl View for Step {
    type V = StepView;

    open spec fn view(&self) -> StepView {
        match self {
            Step::Ask(call, exchange) => StepView::Ask(call@, exchange@),
            Step::Done(outcome) => StepView::Done(outcome@),
        }
    }
}

/// Whether a status returned by the engine reports a failure.
pub open spec fn failed(rc: i32) -> bool {
    rc < 0
}

/// The step that asks for the error number of a call that just failed.
pub open spec fn ask_errno(shape: ResultShape, held: bool) -> StepView {
    StepView::Ask(CallView::Errno, ExchangeView::Errno { result: shape, held })
}

/// The step that releases the message buffer and then returns `outcome`.
pub open spec fn ask_release(outcome: OutcomeView) -> StepView {
    StepView::Ask(CallView::MsgClose, ExchangeView::Release { outcome })
}

/// The shape of what a receive returns: bytes, or the bytes read as text.
pub open spec fn received_shape(text: bool) -> ResultShape {
    if text {
        ResultShape::Text
    } else {
        ResultShape::Bytes
    }
}

/// What a receive that copied `bytes` out of the message buffer returns.
pub open spec fn received(text: bool, bytes: Seq<u8>) -> OutcomeView {
    if text {
        OutcomeView::Text(Ok(text_of(bytes)))
    } else {
        OutcomeView::Bytes(Ok(bytes))
    }
}

/// The part of a slot that the getter reports to have written: the first
/// `size` bytes, or all of the slot where `size` exceeds it.
pub open spec fn written(slot: Seq<u8>, size: usize) -> Seq<u8> {
    if size <= slot.len() {
        slot.subrange(0, size as int)
    } else {
        slot
    }
}

/// What reading an option returns once the getter has succeeded.
pub open spec fn read_option(value: OptionValueView, size: usize) -> OutcomeView {
    match value {
        OptionValueView::Int64(value) => OutcomeView::Int64(Ok(value)),
        OptionValueView::UInt64(value) => OutcomeView::UInt64(Ok(value)),
        OptionValueView::Bytes(slot) => OutcomeView::Bytes(Ok(written(slot, size))),
    }
}

/// The step that follows when the engine answers `reply` to the call that
/// `exchange` waits for, or `None` where `reply` is no answer to that call.
pub open spec fn next(exchange: ExchangeView, reply: ReplyView) -> Option<StepView> {
    match exchange {
        ExchangeView::Version => match reply {
            ReplyView::Version { major, minor, patch } => Some(
                StepView::Done(
                    OutcomeView::Version(major as isize, minor as isize, patch as isize),
                ),
            ),
            _ => None,
        },
        ExchangeView::Description => match reply {
            ReplyView::Text(Some(text)) => Some(StepView::Done(OutcomeView::Description(text))),
            ReplyView::Text(None) => Some(
                StepView::Done(OutcomeView::Description(Seq::empty())),
            ),
            _ => None,
        },
        ExchangeView::NewContext => match reply {
            ReplyView::Handle(addr) => Some(
                if addr == 0 {
                    ask_errno(ResultShape::Context, false)
                } else {
                    StepView::Done(OutcomeView::Context(Ok(addr)))
                },
            ),
            _ => None,
        },
        ExchangeView::NewSocket { kind } => match reply {
            ReplyView::Handle(addr) => Some(
                if addr == 0 {
                    ask_errno(ResultShape::Socket, false)
                } else {
                    StepView::Done(OutcomeView::Socket(Ok(SocketView { addr, kind })))
                },
            ),
            _ => None,
        },
        ExchangeView::Status => match reply {
            ReplyView::Code(rc) => Some(
                if failed(rc) {
                    ask_errno(ResultShape::Unit, false)
                } else {
                    StepView::Done(OutcomeView::Unit(Ok(())))
                },
            ),
            _ => None,
        },
        ExchangeView::Slot { shape } => match reply {
            ReplyView::Slot { rc, value, size } => if value.shape() == shape {
                Some(
                    if failed(rc) {
                        ask_errno(shape.spec_result(), false)
                    } else {
                        StepView::Done(read_option(value, size))
                    },
                )
            } else {
                None
            },
            _ => None,
        },
        ExchangeView::SendAlloc { socket, flags, data } => match reply {
            ReplyView::Code(rc) => Some(
                if failed(rc) {
                    ask_errno(ResultShape::Unit, false)
                } else {
                    StepView::Ask(
                        CallView::MsgFill { bytes: data },
                        ExchangeView::SendFill { socket, flags },
                    )
                },
            ),
            _ => None,
        },
        ExchangeView::SendFill { socket, flags } => match reply {
            ReplyView::Nothing => Some(
                StepView::Ask(CallView::MsgSend { socket, flags }, ExchangeView::SendSubmit),
            ),
            _ => None,
        },
        ExchangeView::SendSubmit => match reply {
            ReplyView::Code(rc) => Some(
                if failed(rc) {
                    ask_errno(ResultShape::Unit, true)
                } else {
                    ask_release(OutcomeView::Unit(Ok(())))
                },
            ),
            _ => None,
        },
        ExchangeView::RecvAlloc { socket, flags, text } => match reply {
            ReplyView::Code(rc) => Some(
                if failed(rc) {
                    ask_errno(received_shape(text), false)
                } else {
                    StepView::Ask(
                        CallView::MsgRecv { socket, flags },
                        ExchangeView::RecvSubmit { text },
                    )
                },
            ),
            _ => None,
        },
        ExchangeView::RecvSubmit { text } => match reply {
            ReplyView::Code(rc) => Some(
                if failed(rc) {
                    ask_errno(received_shape(text), true)
                } else {
                    StepView::Ask(CallView::MsgSize, ExchangeView::RecvSize { text })
                },
            ),
            _ => None,
        },
        ExchangeView::RecvSize { text } => match reply {
            ReplyView::Size(len) => Some(
                StepView::Ask(CallView::MsgRead { len }, ExchangeView::RecvRead { len, text }),
            ),
            _ => None,
        },
        ExchangeView::RecvRead { len, text } => match reply {
            ReplyView::Bytes(bytes) => if bytes.len() == len {
                Some(ask_release(received(text, bytes)))
            } else {
                None
            },
            _ => None,
        },
        ExchangeView::Errno { result, held } => match reply {
            ReplyView::Code(code) => Some(
                if held {
                    ask_release(result.failure(error_of(code)))
                } else {
                    StepView::Done(result.failure(error_of(code)))
                },
            ),
            _ => None,
        },
        ExchangeView::Release { outcome } => match reply {
            ReplyView::Code(_) => Some(StepView::Done(outcome)),
            _ => None,
        },
    }
}

/// Where an operation stands after the engine has given the replies from
/// `replies[at]` on, in order, to the calls asked for from `step` on.
/// `None` where a reply is no answer to the call it is given to, or where
/// replies are left once the operation is over.
pub open spec fn run_from(step: StepView, replies: Seq<ReplyView>, at: int) -> Option<StepView>
    decreases replies.len() - at,
{
    if at < 0 || at >= replies.len() {
        Some(step)
    } else {
        match step {
            StepView::Ask(_, exchange) => match next(exchange, replies[at]) {
                Some(following) => run_from(following, replies, at + 1),
                None => None,
            },
            StepView::Done(_) => None,
        }
    }
}

/// The calls that were answered by the replies from `replies[at]` on.
pub open spec fn asked_from(step: StepView, replies: Seq<ReplyView>, at: int) -> Seq<CallView>
    decreases replies.len() - at,
{
    if at < 0 || at >= replies.len() {
        Seq::empty()
    } else {
        match step {
            StepView::Ask(call, exchange) => match next(exchange, replies[at]) {
                Some(following) => seq![call] + asked_from(following, replies, at + 1),
                None => Seq::empty(),
            },
            StepView::Done(_) => Seq::empty(),
        }
    }
}

/// The calls that an operation starting with `step` makes, in order, while
/// the engine answers `replies`.
pub open spec fn asked(step: StepView, replies: Seq<ReplyView>) -> Seq<CallView> {
    asked_from(step, replies, 0)
}

/// Whether an operation that starts with `step` has, once the engine has
/// answered `replies`, come to its end and returned `outcome`.
pub open spec fn ends(step: StepView, replies: Seq<ReplyView>, outcome: OutcomeView) -> bool {
    run_from(step, replies, 0) == Some(StepView::Done(outcome))
}

/// Whether an operation that starts with `step` makes exactly `calls` while
/// the engine answers `replies`, and then returns `outcome`.
pub open spec fn performs(
    step: StepView,
    replies: Seq<ReplyView>,
    calls: Seq<CallView>,
    outcome: OutcomeView,
) -> bool {
    ends(step, replies, outcome) && asked(step, replies) =~= calls
}

fn errno_step(shape: ResultShape, held: bool) -> (step: Step)
    ensures
        step@ == ask_errno(shape, held),
{
    Step::Ask(Call::Errno, Exchange::Errno { result: shape, held })
}

fn release_step(outcome: Outcome) -> (step: Step)
    ensures
        step@ == ask_release(outcome@),
{
    Step::Ask(Call::MsgClose, Exchange::Release { outcome })
}

fn received_outcome(text: bool, bytes: Vec<u8>) -> (outcome: Outcome)
    ensures
        outcome@ == received(text, bytes@),
{
    if text {
        Outcome::Text(Ok(bytes_to_text(bytes.as_slice())))
    } else {
        Outcome::Bytes(Ok(bytes))
    }
}

fn option_outcome(value: OptionValue, size: usize) -> (outcome: Outcome)
    ensures
        outcome@ == read_option(value@, size),
{
    match value {
        OptionValue::Int64(value) => Outcome::Int64(Ok(value)),
        OptionValue::UInt64(value) => Outcome::UInt64(Ok(value)),
        OptionValue::Bytes(slot) => {
            let mut slot = slot;
            slot.truncate(size);
            Outcome::Bytes(Ok(slot))
        },
    }
}

fn shape_of(value: &OptionValue) -> (shape: OptionShape)
    ensures
        shape == value@.shape(),
{
    match value {
        OptionValue::Int64(_) => OptionShape::Int64,
        OptionValue::UInt64(_) => OptionShape::UInt64,
        OptionValue::Bytes(_) => OptionShape::Bytes,
    }
}

/// Takes an operation one step further with the engine's reply to the call
/// that it asked for.  Returns `None` exactly where `reply` is no answer to
/// that call; the operation can then not go on.
pub fn resume(exchange: Exchange, reply: Reply) -> (step: Option<Step>)
    ensures
        match step {
            Some(step) => next(exchange@, reply@) == Some(step@),
            None => next(exchange@, reply@) is None,
        },
{
    match exchange {
        Exchange::Version => match reply {
            Reply::Version { major, minor, patch } => Some(
                Step::Done(Outcome::Version(major as isize, minor as isize, patch as isize)),
            ),
            _ => None,
        },
        Exchange::Description => match reply {
            Reply::Text(Some(text)) => Some(Step::Done(Outcome::Description(text))),
            Reply::Text(None) => Some(Step::Done(Outcome::Description(String::new()))),
            _ => None,
        },
        Exchange::NewContext => match reply {
            Reply::Handle(addr) => Some(
                if addr == 0 {
                    errno_step(ResultShape::Context, false)
                } else {
                    Step::Done(Outcome::Context(Ok(Context::attach(addr))))
                },
            ),
            _ => None,
        },
        Exchange::NewSocket { kind } => match reply {
            Reply::Handle(addr) => Some(
                if addr == 0 {
                    errno_step(ResultShape::Socket, false)
                } else {
                    Step::Done(Outcome::Socket(Ok(Socket::attach(addr, kind))))
                },
            ),
            _ => None,
        },
        Exchange::Status => match reply {
            Reply::Code(rc) => Some(
                if rc < 0 {
                    errno_step(ResultShape::Unit, false)
                } else {
                    Step::Done(Outcome::Unit(Ok(())))
                },
            ),
            _ => None,
        },
        Exchange::Slot { shape } => match reply {
            Reply::Slot { rc, value, size } => {
                let found = shape_of(&value);
                if found == shape {
                    Some(
                        if rc < 0 {
                            errno_step(shape.result(), false)
                        } else {
                            Step::Done(option_outcome(value, size))
                        },
                    )
                } else {
                    None
                }
            },
            _ => None,
        },
        Exchange::SendAlloc { socket, flags, data } => match reply {
            Reply::Code(rc) => Some(
                if rc < 0 {
                    errno_step(ResultShape::Unit, false)
                } else {
                    Step::Ask(Call::MsgFill { bytes: data }, Exchange::SendFill { socket, flags })
                },
            ),
            _ => None,
        },
        Exchange::SendFill { socket, flags } => match reply {
            Reply::Nothing => Some(Step::Ask(Call::MsgSend { socket, flags }, Exchange::SendSubmit)),
            _ => None,
        },
        Exchange::SendSubmit => match reply {
            Reply::Code(rc) => Some(
                if rc < 0 {
                    errno_step(ResultShape::Unit, true)
                } else {
                    release_step(Outcome::Unit(Ok(())))
                },
            ),
            _ => None,
        },
        Exchange::RecvAlloc { socket, flags, text } => match reply {
            Reply::Code(rc) => Some(
                if rc < 0 {
                    errno_step(if text { ResultShape::Text } else { ResultShape::Bytes }, false)
                } else {
                    Step::Ask(Call::MsgRecv { socket, flags }, Exchange::RecvSubmit { text })
                },
            ),
            _ => None,
        },
        Exchange::RecvSubmit { text } => match reply {
            Reply::Code(rc) => Some(
                if rc < 0 {
                    errno_step(if text { ResultShape::Text } else { ResultShape::Bytes }, true)
                } else {
                    Step::Ask(Call::MsgSize, Exchange::RecvSize { text })
                },
            ),
            _ => None,
        },
        Exchange::RecvSize { text } => match reply {
            Reply::Size(len) => Some(
                Step::Ask(Call::MsgRead { len }, Exchange::RecvRead { len, text }),
            ),
            _ => None,
        },
        Exchange::RecvRead { len, text } => match reply {
            Reply::Bytes(bytes) => if bytes.len() == len {
                Some(release_step(received_outcome(text, bytes)))
            } else {
                None
            },
            _ => None,
        },
        Exchange::Errno { result, held } => match reply {
            Reply::Code(code) => {
                let outcome = result.fail(errno_to_error(code));
                Some(
                    if held {
                        release_step(outcome)
                    } else {
                        Step::Done(outcome)
                    },
                )
            },
            _ => None,
        },
        Exchange::Release { outcome } => match reply {
            Reply::Code(_) => Some(Step::Done(outcome)),
            _ => None,
        },
    }
}

} // verus!
