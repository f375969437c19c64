//! The operations of the binding.  Each returns the first step of its
//! exchange, and its contract says, for every way in which the engine can
//! answer, which calls the operation makes and what it returns.
use vstd::prelude::*;
use vstd::string::StringSliceAdditionalSpecFns;
use vstd::utf8::encode_utf8;
use crate::error::{error_to_errno, Error};
use crate::exchange::{failed, performs, Exchange, ExchangeView, Step, StepView};
use crate::handle::{Context, Socket};
use crate::kinds::{SocketKind, SocketOption};
use crate::laws::{
    description, description_replies, get_call, get_i64_result, get_u64_result, get_vec_result,
    handle_replies, init_result, lemma_describe, lemma_get_i64, lemma_get_u64, lemma_get_vec,
    lemma_init, lemma_recv, lemma_recv_str, lemma_send, lemma_socket, lemma_status,
    lemma_version, one_call, recv_calls, recv_replies, recv_result, recv_str_result, send_calls,
    send_replies, send_result, slot_replies, socket_result, status_replies, status_result,
    version_replies,
};
use crate::wire::{
    Call, CallView, OptionShape, OptionValue, OptionValueView, OutcomeView, INTEGER_OPTION_SIZE,
};

verus! {

/// How asking for the engine's version starts.
pub open spec fn start_version() -> StepView {
    StepView::Ask(CallView::Version, ExchangeView::Version)
}

/// How creating a context starts: the count of threads goes to the engine
/// as a 32-bit integer.
pub open spec fn start_init(io_threads: isize) -> StepView {
    StepView::Ask(CallView::Init { io_threads: io_threads as i32 }, ExchangeView::NewContext)
}

/// How destroying the context at `context` starts.
pub open spec fn start_term(context: usize) -> StepView {
    StepView::Ask(CallView::Term { context }, ExchangeView::Status)
}

/// How creating a socket of `kind` in the context at `context` starts.
pub open spec fn start_socket(context: usize, kind: SocketKind) -> StepView {
    StepView::Ask(
        CallView::Socket { context, kind: kind.spec_code() },
        ExchangeView::NewSocket { kind },
    )
}

/// How destroying the socket at `socket` starts.
pub open spec fn start_close(socket: usize) -> StepView {
    StepView::Ask(CallView::Close { socket }, ExchangeView::Status)
}

/// How binding the socket at `socket` to `endpoint` starts.
pub open spec fn start_bind(socket: usize, endpoint: Seq<char>) -> StepView {
    StepView::Ask(CallView::Bind { socket, endpoint }, ExchangeView::Status)
}

/// How connecting the socket at `socket` to `endpoint` starts.
pub open spec fn start_connect(socket: usize, endpoint: Seq<char>) -> StepView {
    StepView::Ask(CallView::Connect { socket, endpoint }, ExchangeView::Status)
}

/// How reading `option` in the given shape starts: the getter is handed a
/// slot of that shape and of the shape's capacity.
pub open spec fn start_get(socket: usize, option: SocketOption, shape: OptionShape) -> StepView {
    StepView::Ask(get_call(socket, option, shape), ExchangeView::Slot { shape })
}

/// The call that writes `value` to `option` of `socket`: the setter is
/// handed the value and the exact number of bytes that it takes.
pub open spec fn set_call(socket: usize, option: SocketOption, value: OptionValueView) -> CallView {
    CallView::SetOption { socket, option: option.spec_code(), value, size: value.width() as usize }
}

/// How writing `value` to `option` starts.
pub open spec fn start_set(socket: usize, option: SocketOption, value: OptionValueView) -> StepView {
    StepView::Ask(set_call(socket, option, value), ExchangeView::Status)
}

/// How sending `data` starts: a message buffer is asked for with room for
/// exactly the payload.
pub open spec fn start_send(socket: usize, data: Seq<u8>, flags: i32) -> StepView {
    StepView::Ask(
        CallView::MsgInitSize { size: data.len() as usize },
        ExchangeView::SendAlloc { socket, flags, data },
    )
}

/// How receiving starts: an empty message buffer is asked for.  `text`
/// says whether the payload is returned as text.
pub open spec fn start_recv(socket: usize, flags: i32, text: bool) -> StepView {
    StepView::Ask(CallView::MsgInit, ExchangeView::RecvAlloc { socket, flags, text })
}

/// How asking for the description of `error` starts.
pub open spec fn start_describe(error: Error) -> StepView {
    StepView::Ask(CallView::Strerror { code: error.errno() }, ExchangeView::Description)
}

/// Asks for the version of the engine, and returns its three parts as the
/// engine gave them.
pub fn version() -> (step: Step)
    ensures
        step@ == start_version(),
        forall|major: i32, minor: i32, patch: i32|
            #![trigger version_replies(major, minor, patch)]
            performs(
                step@,
                version_replies(major, minor, patch),
                seq![CallView::Version],
                OutcomeView::Version(major as isize, minor as isize, patch as isize),
            ),
{
    let step = Step::Ask(Call::Version, Exchange::Version);
    proof {
        assert forall|major: i32, minor: i32, patch: i32|
            #![trigger version_replies(major, minor, patch)]
            performs(
                step@,
                version_replies(major, minor, patch),
                seq![CallView::Version],
                OutcomeView::Version(major as isize, minor as isize, patch as isize),
            ) by {
            lemma_version(major, minor, patch);
        }
    }
    step
}

/// Creates a context whose engine runs `io_threads` background threads.
/// The count is handed on as it is, cut to 32 bits; zero is in order where
/// only sockets within the process are used.  A non-null address becomes
/// the context; after a null address the error is read and returned.
pub fn init(io_threads: isize) -> (step: Step)
    ensures
        step@ == start_init(io_threads),
        forall|addr: usize, errno: i32|
            #![trigger handle_replies(addr, errno)]
            performs(
                step@,
                handle_replies(addr, errno),
                one_call(CallView::Init { io_threads: io_threads as i32 }, addr == 0),
                OutcomeView::Context(init_result(addr, errno)),
            ),
{
    let count: i32 = #[verifier::truncate] (io_threads as i32);
    let step = Step::Ask(Call::Init { io_threads: count }, Exchange::NewContext);
    proof {
        assert forall|addr: usize, errno: i32|
            #![trigger handle_replies(addr, errno)]
            performs(
                step@,
                handle_replies(addr, errno),
                one_call(CallView::Init { io_threads: io_threads as i32 }, addr == 0),
                OutcomeView::Context(init_result(addr, errno)),
            ) by {
            lemma_init(io_threads, addr, errno);
        }
    }
    step
}

/// Creates a socket of kind `kind` in the context `ctx`.  A non-null
/// address becomes the socket; after a null address the error is read and
/// returned.
pub fn socket(ctx: &Context, kind: SocketKind) -> (step: Step)
    ensures
        step@ == start_socket(ctx@, kind),
        forall|addr: usize, errno: i32|
            #![trigger handle_replies(addr, errno)]
            performs(
                step@,
                handle_replies(addr, errno),
                one_call(CallView::Socket { context: ctx@, kind: kind.spec_code() }, addr == 0),
                OutcomeView::Socket(socket_result(kind, addr, errno)),
            ),
{
    let step = Step::Ask(
        Call::Socket { context: ctx.addr(), kind: kind.code() },
        Exchange::NewSocket { kind },
    );
    proof {
        assert forall|addr: usize, errno: i32|
            #![trigger handle_replies(addr, errno)]
            performs(
                step@,
                handle_replies(addr, errno),
                one_call(CallView::Socket { context: ctx@, kind: kind.spec_code() }, addr == 0),
                OutcomeView::Socket(socket_result(kind, addr, errno)),
            ) by {
            lemma_socket(ctx@, kind, addr, errno);
        }
    }
    step
}

/// Whether the operation that starts with `step` makes the one call
/// `call` and returns no value: success where the call's status is not
/// negative, and else the error that the error number, read right after
/// the call, stands for.
pub open spec fn calls_once(step: StepView, call: CallView) -> bool {
    &&& step == StepView::Ask(call, ExchangeView::Status)
    &&& forall|rc: i32, errno: i32|
        #![trigger status_replies(rc, errno)]
        performs(
            step,
            status_replies(rc, errno),
            one_call(call, failed(rc)),
            OutcomeView::Unit(status_result(rc, errno)),
        )
}

/// Starts the operation of the one call `call`, which returns a status.
fn call_once(call: Call) -> (step: Step)
    requires
        call is Term || call is Close || call is Bind || call is Connect || call is SetOption,
    ensures
        calls_once(step@, call@),
{
    let step = Step::Ask(call, Exchange::Status);
    proof {
        assert forall|rc: i32, errno: i32|
            #![trigger status_replies(rc, errno)]
            performs(
                step@,
                status_replies(rc, errno),
                one_call(call@, failed(rc)),
                OutcomeView::Unit(status_result(rc, errno)),
            ) by {
            lemma_status(call@, rc, errno);
        }
    }
    step
}

/// Destroys the context `ctx`, which is given up whatever the engine answers.
pub fn term(ctx: Context) -> (step: Step)
    ensures
        calls_once(step@, CallView::Term { context: ctx@ }),
{
    call_once(Call::Term { context: ctx.addr() })
}

/// Destroys the socket `sock`, which is given up whatever the engine answers.
pub fn close(sock: Socket) -> (step: Step)
    ensures
        calls_once(step@, CallView::Close { socket: sock@.addr }),
{
    call_once(Call::Close { socket: sock.addr() })
}

/// Accepts connections to the socket at `endpoint`.  The endpoint is
/// handed to the engine as it is.
pub fn bind(sock: &Socket, endpoint: String) -> (step: Step)
    ensures
        calls_once(step@, CallView::Bind { socket: sock@.addr, endpoint: endpoint@ }),
{
    call_once(Call::Bind { socket: sock.addr(), endpoint })
}

/// Connects the socket to `endpoint`.  The endpoint is handed to the
/// engine as it is.
pub fn connect(sock: &Socket, endpoint: String) -> (step: Step)
    ensures
        calls_once(step@, CallView::Connect { socket: sock@.addr, endpoint: endpoint@ }),
{
    call_once(Call::Connect { socket: sock.addr(), endpoint })
}

/// Writes a signed 64-bit option of the socket: the setter is handed the
/// integer and a size of eight bytes.
pub fn setsockopt_i64(sock: &Socket, option: SocketOption, value: i64) -> (step: Step)
    ensures
        calls_once(
            step@,
            CallView::SetOption {
                socket: sock@.addr,
                option: option.spec_code(),
                value: OptionValueView::Int64(value),
                size: 8,
            },
        ),
{
    call_once(
        Call::SetOption {
            socket: sock.addr(),
            option: option.code(),
            value: OptionValue::Int64(value),
            size: INTEGER_OPTION_SIZE,
        },
    )
}

/// Writes an unsigned 64-bit option of the socket: the setter is handed
/// the integer and a size of eight bytes.
pub fn setsockopt_u64(sock: &Socket, option: SocketOption, value: u64) -> (step: Step)
    ensures
        calls_once(
            step@,
            CallView::SetOption {
                socket: sock@.addr,
                option: option.spec_code(),
                value: OptionValueView::UInt64(value),
                size: 8,
            },
        ),
{
    call_once(
        Call::SetOption {
            socket: sock.addr(),
            option: option.code(),
            value: OptionValue::UInt64(value),
            size: INTEGER_OPTION_SIZE,
        },
    )
}

/// Writes a binary option of the socket: the setter is handed the bytes
/// and their exact number.
pub fn setsockopt_vec(sock: &Socket, option: SocketOption, value: Vec<u8>) -> (step: Step)
    ensures
        calls_once(
            step@,
            CallView::SetOption {
                socket: sock@.addr,
                option: option.spec_code(),
                value: OptionValueView::Bytes(value@),
                size: value@.len() as usize,
            },
        ),
        value@.len() as usize == value@.len(),
{
    let size: usize = value.len();
    call_once(
        Call::SetOption {
            socket: sock.addr(),
            option: option.code(),
            value: OptionValue::Bytes(value),
            size,
        },
    )
}

fn get_option(sock: &Socket, option: SocketOption, shape: OptionShape) -> (step: Step)
    ensures
        step@ == start_get(sock@.addr, option, shape),
{
    Step::Ask(
        Call::GetOption {
            socket: sock.addr(),
            option: option.code(),
            shape,
            size: shape.capacity(),
        },
        Exchange::Slot { shape },
    )
}

/// Reads a signed 64-bit option of the socket from a slot of eight bytes:
/// the integer that the getter left there, or the error of the getter.
pub fn getsockopt_i64(sock: &Socket, option: SocketOption) -> (step: Step)
    ensures
        step@ == start_get(sock@.addr, option, OptionShape::Int64),
        forall|rc: i32, value: i64, size: usize, errno: i32|
            #![trigger slot_replies(rc, OptionValueView::Int64(value), size, errno)]
            performs(
                step@,
                slot_replies(rc, OptionValueView::Int64(value), size, errno),
                one_call(get_call(sock@.addr, option, OptionShape::Int64), failed(rc)),
                OutcomeView::Int64(get_i64_result(rc, value, errno)),
            ),
{
    let step = get_option(sock, option, OptionShape::Int64);
    proof {
        assert forall|rc: i32, value: i64, size: usize, errno: i32|
            #![trigger slot_replies(rc, OptionValueView::Int64(value), size, errno)]
            performs(
                step@,
                slot_replies(rc, OptionValueView::Int64(value), size, errno),
                one_call(get_call(sock@.addr, option, OptionShape::Int64), failed(rc)),
                OutcomeView::Int64(get_i64_result(rc, value, errno)),
            ) by {
            lemma_get_i64(sock@.addr, option, rc, value, size, errno);
        }
    }
    step
}

/// Reads an unsigned 64-bit option of the socket from a slot of eight
/// bytes: the integer that the getter left there, or the error of the
/// getter.
pub fn getsockopt_u64(sock: &Socket, option: SocketOption) -> (step: Step)
    ensures
        step@ == start_get(sock@.addr, option, OptionShape::UInt64),
        forall|rc: i32, value: u64, size: usize, errno: i32|
            #![trigger slot_replies(rc, OptionValueView::UInt64(value), size, errno)]
            performs(
                step@,
                slot_replies(rc, OptionValueView::UInt64(value), size, errno),
                one_call(get_call(sock@.addr, option, OptionShape::UInt64), failed(rc)),
                OutcomeView::UInt64(get_u64_result(rc, value, errno)),
            ),
{
    let step = get_option(sock, option, OptionShape::UInt64);
    proof {
        assert forall|rc: i32, value: u64, size: usize, errno: i32|
            #![trigger slot_replies(rc, OptionValueView::UInt64(value), size, errno)]
            performs(
                step@,
                slot_replies(rc, OptionValueView::UInt64(value), size, errno),
                one_call(get_call(sock@.addr, option, OptionShape::UInt64), failed(rc)),
                OutcomeView::UInt64(get_u64_result(rc, value, errno)),
            ) by {
            lemma_get_u64(sock@.addr, option, rc, value, size, errno);
        }
    }
    step
}

/// Reads a binary option of the socket from a slot of 255 bytes: the part
/// of the slot that the getter reports to have written, or the error of
/// the getter.
pub fn getsockopt_vec(sock: &Socket, option: SocketOption) -> (step: Step)
    ensures
        step@ == start_get(sock@.addr, option, OptionShape::Bytes),
        forall|rc: i32, slot: Seq<u8>, size: usize, errno: i32|
            #![trigger slot_replies(rc, OptionValueView::Bytes(slot), size, errno)]
            performs(
                step@,
                slot_replies(rc, OptionValueView::Bytes(slot), size, errno),
                one_call(get_call(sock@.addr, option, OptionShape::Bytes), failed(rc)),
                OutcomeView::Bytes(get_vec_result(rc, slot, size, errno)),
            ),
{
    let step = get_option(sock, option, OptionShape::Bytes);
    proof {
        assert forall|rc: i32, slot: Seq<u8>, size: usize, errno: i32|
            #![trigger slot_replies(rc, OptionValueView::Bytes(slot), size, errno)]
            performs(
                step@,
                slot_replies(rc, OptionValueView::Bytes(slot), size, errno),
                one_call(get_call(sock@.addr, option, OptionShape::Bytes), failed(rc)),
                OutcomeView::Bytes(get_vec_result(rc, slot, size, errno)),
            ) by {
            lemma_get_vec(sock@.addr, option, rc, slot, size, errno);
        }
    }
    step
}

/// Whether the operation that starts with `step` sends `data` on `socket`
/// with `flags`: it makes the calls of `send_calls` and returns
/// `send_result`, however the engine answers.
pub open spec fn sends(step: StepView, socket: usize, data: Seq<u8>, flags: i32) -> bool {
    &&& step == start_send(socket, data, flags)
    &&& forall|alloc: i32, submit: i32, errno: i32, release: i32|
        #![trigger send_replies(alloc, submit, errno, release)]
        performs(
            step,
            send_replies(alloc, submit, errno, release),
            send_calls(socket, data, flags, alloc, submit),
            OutcomeView::Unit(send_result(alloc, submit, errno)),
        )
}

/// Sends `data` as one message, or as one part of a message where `flags`
/// say that more follow.  The payload is copied byte for byte into a buffer
/// of its size, and the buffer is released whether or not the submission
/// failed.
pub fn send(sock: &Socket, data: Vec<u8>, flags: i32) -> (step: Step)
    ensures
        sends(step@, sock@.addr, data@, flags),
{
    let size: usize = data.len();
    let step = Step::Ask(
        Call::MsgInitSize { size },
        Exchange::SendAlloc { socket: sock.addr(), flags, data },
    );
    proof {
        assert forall|alloc: i32, submit: i32, errno: i32, release: i32|
            #![trigger send_replies(alloc, submit, errno, release)]
            performs(
                step@,
                send_replies(alloc, submit, errno, release),
                send_calls(sock@.addr, data@, flags, alloc, submit),
                OutcomeView::Unit(send_result(alloc, submit, errno)),
            ) by {
            lemma_send(sock@.addr, data@, flags, alloc, submit, errno, release);
        }
    }
    step
}

/// Sends the bytes of `data`, with nothing added before or after them.
pub fn send_str(sock: &Socket, data: String, flags: i32) -> (step: Step)
    ensures
        sends(step@, sock@.addr, encode_utf8(data@), flags),
{
    let bytes = data.as_str().as_bytes_vec();
    send(sock, bytes, flags)
}

/// Receives one message, or one part of a message: exactly the bytes that
/// the engine reports the message to have.  The buffer is released whether
/// or not the receive failed.
pub fn recv(sock: &Socket, flags: i32) -> (step: Step)
    ensures
        step@ == start_recv(sock@.addr, flags, false),
        forall|alloc: i32, submit: i32, errno: i32, message: Seq<u8>, release: i32|
            #![trigger recv_replies(alloc, submit, errno, message, release)]
            message.len() <= usize::MAX ==> performs(
                step@,
                recv_replies(alloc, submit, errno, message, release),
                recv_calls(sock@.addr, flags, alloc, submit, message),
                OutcomeView::Bytes(recv_result(alloc, submit, errno, message)),
            ),
{
    let step = Step::Ask(
        Call::MsgInit,
        Exchange::RecvAlloc { socket: sock.addr(), flags, text: false },
    );
    proof {
        assert forall|alloc: i32, submit: i32, errno: i32, message: Seq<u8>, release: i32|
            #![trigger recv_replies(alloc, submit, errno, message, release)]
            message.len() <= usize::MAX implies performs(
                step@,
                recv_replies(alloc, submit, errno, message, release),
                recv_calls(sock@.addr, flags, alloc, submit, message),
                OutcomeView::Bytes(recv_result(alloc, submit, errno, message)),
            ) by {
            lemma_recv(sock@.addr, flags, alloc, submit, errno, message, release);
        }
    }
    step
}

/// Receives one message, or one part of a message, and reads it as text.
pub fn recv_str(sock: &Socket, flags: i32) -> (step: Step)
    ensures
        step@ == start_recv(sock@.addr, flags, true),
        forall|alloc: i32, submit: i32, errno: i32, message: Seq<u8>, release: i32|
            #![trigger recv_replies(alloc, submit, errno, message, release)]
            message.len() <= usize::MAX ==> performs(
                step@,
                recv_replies(alloc, submit, errno, message, release),
                recv_calls(sock@.addr, flags, alloc, submit, message),
                OutcomeView::Text(recv_str_result(alloc, submit, errno, message)),
            ),
{
    let step = Step::Ask(
        Call::MsgInit,
        Exchange::RecvAlloc { socket: sock.addr(), flags, text: true },
    );
    proof {
        assert forall|alloc: i32, submit: i32, errno: i32, message: Seq<u8>, release: i32|
            #![trigger recv_replies(alloc, submit, errno, message, release)]
            message.len() <= usize::MAX implies performs(
                step@,
                recv_replies(alloc, submit, errno, message, release),
                recv_calls(sock@.addr, flags, alloc, submit, message),
                OutcomeView::Text(recv_str_result(alloc, submit, errno, message)),
            ) by {
            lemma_recv_str(sock@.addr, flags, alloc, submit, errno, message, release);
        }
    }
    step
}

/// Asks the engine to describe `error`: the text that the engine has for
/// the error's number, or the empty text where it has none.
pub fn error_to_str(error: Error) -> (step: Step)
    ensures
        step@ == start_describe(error),
        forall|text: Option<Seq<char>>|
            #![trigger description_replies(text)]
            performs(
                step@,
                description_replies(text),
                seq![CallView::Strerror { code: error.errno() }],
                OutcomeView::Description(description(text)),
            ),
{
    let step = Step::Ask(Call::Strerror { code: error_to_errno(error) }, Exchange::Description);
    proof {
        assert forall|text: Option<Seq<char>>|
            #![trigger description_replies(text)]
            performs(
                step@,
                description_replies(text),
                seq![CallView::Strerror { code: error.errno() }],
                OutcomeView::Description(description(text)),
            ) by {
            lemma_describe(error, text);
        }
    }
    step
}

} // verus!
