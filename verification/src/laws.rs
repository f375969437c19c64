//! What each operation does as a whole: the calls that it makes and what it
//! returns, for every way in which the engine can answer.
use vstd::prelude::*;
use vstd::utf8::{encode_utf8, encode_utf8_decode_utf8, encode_utf8_valid_utf8};
use crate::error::{error_of, Error};
use crate::exchange::{asked_from, failed, performs, run_from, written, ExchangeView, StepView};
use crate::handle::SocketView;
use crate::kinds::{SocketKind, SocketOption};
use crate::ops::{
    set_call, start_close, start_describe, start_get, start_init, start_recv, start_send,
    start_set, start_socket, start_version,
};
use crate::text::text_of;
use crate::wire::{CallView, OptionShape, OptionValueView, OutcomeView, ReplyView};

verus! {

/// The replies to an operation of one call that returns an address: the
/// address, and after a null address the error number.
pub open spec fn handle_replies(addr: usize, errno: i32) -> Seq<ReplyView> {
    if addr == 0 {
        seq![ReplyView::Handle(addr), ReplyView::Code(errno)]
    } else {
        seq![ReplyView::Handle(addr)]
    }
}

/// The replies to an operation of one call that returns a status: the
/// status, and after a negative status the error number.
pub open spec fn status_replies(rc: i32, errno: i32) -> Seq<ReplyView> {
    if failed(rc) {
        seq![ReplyView::Code(rc), ReplyView::Code(errno)]
    } else {
        seq![ReplyView::Code(rc)]
    }
}

/// The replies to reading an option: the getter's status with the slot as
/// it left it and the size it reports, and after a negative status the
/// error number.
pub open spec fn slot_replies(rc: i32, value: OptionValueView, size: usize, errno: i32) -> Seq<
    ReplyView,
> {
    if failed(rc) {
        seq![ReplyView::Slot { rc, value, size }, ReplyView::Code(errno)]
    } else {
        seq![ReplyView::Slot { rc, value, size }]
    }
}

/// The calls of an operation of one call: the call, and where it failed
/// the reading of the error number right after it.
pub open spec fn one_call(call: CallView, failed: bool) -> Seq<CallView> {
    if failed {
        seq![call, CallView::Errno]
    } else {
        seq![call]
    }
}

/// What creating a context returns: the context at the address that the
/// engine gave, or after a null address the error that the error number
/// stands for.
pub open spec fn init_result(addr: usize, errno: i32) -> Result<usize, Error> {
    if addr == 0 {
        Err(error_of(errno))
    } else {
        Ok(addr)
    }
}

/// What creating a socket returns: the socket of the kind asked for at the
/// address that the engine gave, or after a null address the error that
/// the error number stands for.
pub open spec fn socket_result(kind: SocketKind, addr: usize, errno: i32) -> Result<
    SocketView,
    Error,
> {
    if addr == 0 {
        Err(error_of(errno))
    } else {
        Ok(SocketView { addr, kind })
    }
}

/// What an operation that returns no value returns: success, or after a
/// negative status the error that the error number stands for.
pub open spec fn status_result(rc: i32, errno: i32) -> Result<(), Error> {
    if failed(rc) {
        Err(error_of(errno))
    } else {
        Ok(())
    }
}

/// What reading a signed integer option returns: the integer as the
/// getter left it in the slot, or after a negative status the error that
/// the error number stands for.
pub open spec fn get_i64_result(rc: i32, value: i64, errno: i32) -> Result<i64, Error> {
    if failed(rc) {
        Err(error_of(errno))
    } else {
        Ok(value)
    }
}

/// What reading an unsigned integer option returns: the integer as the
/// getter left it in the slot, or after a negative status the error that
/// the error number stands for.
pub open spec fn get_u64_result(rc: i32, value: u64, errno: i32) -> Result<u64, Error> {
    if failed(rc) {
        Err(error_of(errno))
    } else {
        Ok(value)
    }
}

/// What reading a binary option returns: the part of the slot that the
/// getter reports to have written, or after a negative status the error
/// that the error number stands for.
pub open spec fn get_vec_result(rc: i32, slot: Seq<u8>, size: usize, errno: i32) -> Result<
    Seq<u8>,
    Error,
> {
    if failed(rc) {
        Err(error_of(errno))
    } else {
        Ok(written(slot, size))
    }
}

/// The one reply to asking for the version.
pub open spec fn version_replies(major: i32, minor: i32, patch: i32) -> Seq<ReplyView> {
    seq![ReplyView::Version { major, minor, patch }]
}

/// The one reply to asking for a description.
pub open spec fn description_replies(text: Option<Seq<char>>) -> Seq<ReplyView> {
    seq![ReplyView::Text(text)]
}

/// The description of an error: the text that the engine has for it, and
/// the empty text where it has none.
pub open spec fn description(text: Option<Seq<char>>) -> Seq<char> {
    match text {
        Some(text) => text,
        None => Seq::empty(),
    }
}

/// The replies that a send consumes: the status of initialising the
/// buffer; then, unless that failed, nothing for the copy and the status of
/// the submission; after either failure the error number; and, where the
/// buffer was initialised, the status of its release.
pub open spec fn send_replies(alloc: i32, submit: i32, errno: i32, release: i32) -> Seq<ReplyView> {
    if failed(alloc) {
        seq![ReplyView::Code(alloc), ReplyView::Code(errno)]
    } else if failed(submit) {
        seq![
            ReplyView::Code(alloc),
            ReplyView::Nothing,
            ReplyView::Code(submit),
            ReplyView::Code(errno),
            ReplyView::Code(release),
        ]
    } else {
        seq![
            ReplyView::Code(alloc),
            ReplyView::Nothing,
            ReplyView::Code(submit),
            ReplyView::Code(release),
        ]
    }
}

/// The calls that a send makes.  The buffer has room for exactly the
/// payload, the payload is copied into it byte for byte, and the buffer is
/// released whether or not the submission failed; an error number is read
/// right after the call that failed.
pub open spec fn send_calls(
    socket: usize,
    data: Seq<u8>,
    flags: i32,
    alloc: i32,
    submit: i32,
) -> Seq<CallView> {
    if failed(alloc) {
        seq![CallView::MsgInitSize { size: data.len() as usize }, CallView::Errno]
    } else if failed(submit) {
        seq![
            CallView::MsgInitSize { size: data.len() as usize },
            CallView::MsgFill { bytes: data },
            CallView::MsgSend { socket, flags },
            CallView::Errno,
            CallView::MsgClose,
        ]
    } else {
        seq![
            CallView::MsgInitSize { size: data.len() as usize },
            CallView::MsgFill { bytes: data },
            CallView::MsgSend { socket, flags },
            CallView::MsgClose,
        ]
    }
}

/// What a send returns: success where neither the buffer's initialisation
/// nor the submission failed, else the error that the error number stands
/// for.  The status of the release is not read.
pub open spec fn send_result(alloc: i32, submit: i32, errno: i32) -> Result<(), Error> {
    if failed(alloc) || failed(submit) {
        Err(error_of(errno))
    } else {
        Ok(())
    }
}

/// The replies that a receive consumes: the status of initialising the
/// buffer; then, unless that failed, the status of the receive; after
/// either failure the error number; after a receive that succeeded the
/// size of the message and its bytes; and, where the buffer was
/// initialised, the status of its release.
pub open spec fn recv_replies(
    alloc: i32,
    submit: i32,
    errno: i32,
    message: Seq<u8>,
    release: i32,
) -> Seq<ReplyView> {
    if failed(alloc) {
        seq![ReplyView::Code(alloc), ReplyView::Code(errno)]
    } else if failed(submit) {
        seq![
            ReplyView::Code(alloc),
            ReplyView::Code(submit),
            ReplyView::Code(errno),
            ReplyView::Code(release),
        ]
    } else {
        seq![
            ReplyView::Code(alloc),
            ReplyView::Code(submit),
            ReplyView::Size(message.len() as usize),
            ReplyView::Bytes(message),
            ReplyView::Code(release),
        ]
    }
}

/// The calls that a receive makes.  Exactly as many bytes are copied out
/// as the engine reports the message to have, and the buffer is released
/// whether or not the receive failed; an error number is read right after
/// the call that failed.
pub open spec fn recv_calls(
    socket: usize,
    flags: i32,
    alloc: i32,
    submit: i32,
    message: Seq<u8>,
) -> Seq<CallView> {
    if failed(alloc) {
        seq![CallView::MsgInit, CallView::Errno]
    } else if failed(submit) {
        seq![
            CallView::MsgInit,
            CallView::MsgRecv { socket, flags },
            CallView::Errno,
            CallView::MsgClose,
        ]
    } else {
        seq![
            CallView::MsgInit,
            CallView::MsgRecv { socket, flags },
            CallView::MsgSize,
            CallView::MsgRead { len: message.len() as usize },
            CallView::MsgClose,
        ]
    }
}

/// What a receive returns: the message where neither the buffer's
/// initialisation nor the receive failed, else the error that the error
/// number stands for.
pub open spec fn recv_result(alloc: i32, submit: i32, errno: i32, message: Seq<u8>) -> Result<
    Seq<u8>,
    Error,
> {
    if failed(alloc) || failed(submit) {
        Err(error_of(errno))
    } else {
        Ok(message)
    }
}

/// What a receive as text returns: the message read as text, or the error
/// of the receive.
pub open spec fn recv_str_result(alloc: i32, submit: i32, errno: i32, message: Seq<u8>) -> Result<
    Seq<char>,
    Error,
> {
    match recv_result(alloc, submit, errno, message) {
        Ok(bytes) => Ok(text_of(bytes)),
        Err(error) => Err(error),
    }
}

/// Asking for the version is one call, and the version is returned part by
/// part as the engine gave it.
pub proof fn lemma_version(major: i32, minor: i32, patch: i32)
    ensures
        performs(
            start_version(),
            version_replies(major, minor, patch),
            seq![CallView::Version],
            OutcomeView::Version(major as isize, minor as isize, patch as isize),
        ),
        major as isize == major,
        minor as isize == minor,
        patch as isize == patch,
{
    reveal_with_fuel(run_from, 2);
    reveal_with_fuel(asked_from, 2);
}

/// Creating a context makes one call.  A non-null address becomes the
/// context; after a null address the error number is read at once and the
/// error it stands for returned.  A count of threads that fits 32 bits
/// reaches the engine unchanged.
pub proof fn lemma_init(io_threads: isize, addr: usize, errno: i32)
    ensures
        performs(
            start_init(io_threads),
            handle_replies(addr, errno),
            one_call(CallView::Init { io_threads: io_threads as i32 }, addr == 0),
            OutcomeView::Context(init_result(addr, errno)),
        ),
        i32::MIN <= io_threads <= i32::MAX ==> io_threads as i32 == io_threads,
{
    reveal_with_fuel(run_from, 3);
    reveal_with_fuel(asked_from, 3);
}

/// Creating a socket makes one call.  A non-null address becomes a socket
/// of the kind asked for; after a null address the error number is read at
/// once and the error it stands for returned.
pub proof fn lemma_socket(context: usize, kind: SocketKind, addr: usize, errno: i32)
    ensures
        performs(
            start_socket(context, kind),
            handle_replies(addr, errno),
            one_call(CallView::Socket { context, kind: kind.spec_code() }, addr == 0),
            OutcomeView::Socket(socket_result(kind, addr, errno)),
        ),
{
    reveal_with_fuel(run_from, 3);
    reveal_with_fuel(asked_from, 3);
}

/// An operation of one call that returns no value (destroying a context or
/// a socket, binding, connecting, writing an option) succeeds where the
/// call's status is not negative.  After a negative status the error
/// number is read at once and the error it stands for returned.
pub proof fn lemma_status(call: CallView, rc: i32, errno: i32)
    requires
        call is Term || call is Close || call is Bind || call is Connect || call is SetOption,
    ensures
        performs(
            StepView::Ask(call, ExchangeView::Status),
            status_replies(rc, errno),
            one_call(call, failed(rc)),
            OutcomeView::Unit(status_result(rc, errno)),
        ),
{
    reveal_with_fuel(run_from, 3);
    reveal_with_fuel(asked_from, 3);
}

/// The call that reads `option` of `socket` into a slot of `shape`: the
/// slot has the shape's capacity, eight bytes for an integer and 255 for
/// bytes.
pub open spec fn get_call(socket: usize, option: SocketOption, shape: OptionShape) -> CallView {
    CallView::GetOption { socket, option: option.spec_code(), shape, size: shape.spec_capacity() }
}

/// Reading a signed integer option makes one call with a slot of eight
/// bytes, and returns what `get_i64_result` says.
pub proof fn lemma_get_i64(
    socket: usize,
    option: SocketOption,
    rc: i32,
    value: i64,
    size: usize,
    errno: i32,
)
    ensures
        performs(
            start_get(socket, option, OptionShape::Int64),
            slot_replies(rc, OptionValueView::Int64(value), size, errno),
            one_call(get_call(socket, option, OptionShape::Int64), failed(rc)),
            OutcomeView::Int64(get_i64_result(rc, value, errno)),
        ),
        OptionShape::Int64.spec_capacity() == 8,
{
    reveal_with_fuel(run_from, 3);
    reveal_with_fuel(asked_from, 3);
}

/// Reading an unsigned integer option makes one call with a slot of eight
/// bytes, and returns what `get_u64_result` says.
pub proof fn lemma_get_u64(
    socket: usize,
    option: SocketOption,
    rc: i32,
    value: u64,
    size: usize,
    errno: i32,
)
    ensures
        performs(
            start_get(socket, option, OptionShape::UInt64),
            slot_replies(rc, OptionValueView::UInt64(value), size, errno),
            one_call(get_call(socket, option, OptionShape::UInt64), failed(rc)),
            OutcomeView::UInt64(get_u64_result(rc, value, errno)),
        ),
        OptionShape::UInt64.spec_capacity() == 8,
{
    reveal_with_fuel(run_from, 3);
    reveal_with_fuel(asked_from, 3);
}

/// Reading a binary option makes one call with a slot of 255 bytes, and
/// returns what `get_vec_result` says.
pub proof fn lemma_get_vec(
    socket: usize,
    option: SocketOption,
    rc: i32,
    slot: Seq<u8>,
    size: usize,
    errno: i32,
)
    ensures
        performs(
            start_get(socket, option, OptionShape::Bytes),
            slot_replies(rc, OptionValueView::Bytes(slot), size, errno),
            one_call(get_call(socket, option, OptionShape::Bytes), failed(rc)),
            OutcomeView::Bytes(get_vec_result(rc, slot, size, errno)),
        ),
        OptionShape::Bytes.spec_capacity() == 255,
{
    reveal_with_fuel(run_from, 3);
    reveal_with_fuel(asked_from, 3);
}

/// Asking for the description of an error is one call, with the number of
/// the error, and returns the engine's text or the empty text.
pub proof fn lemma_describe(error: Error, text: Option<Seq<char>>)
    ensures
        performs(
            start_describe(error),
            description_replies(text),
            seq![CallView::Strerror { code: error.errno() }],
            OutcomeView::Description(description(text)),
        ),
{
    reveal_with_fuel(run_from, 2);
    reveal_with_fuel(asked_from, 2);
}

/// A send makes the calls of `send_calls` and returns `send_result`,
/// however the engine answers.
pub proof fn lemma_send(
    socket: usize,
    data: Seq<u8>,
    flags: i32,
    alloc: i32,
    submit: i32,
    errno: i32,
    release: i32,
)
    ensures
        performs(
            start_send(socket, data, flags),
            send_replies(alloc, submit, errno, release),
            send_calls(socket, data, flags, alloc, submit),
            OutcomeView::Unit(send_result(alloc, submit, errno)),
        ),
{
    reveal_with_fuel(run_from, 6);
    reveal_with_fuel(asked_from, 6);
}

/// A receive makes the calls of `recv_calls` and returns `recv_result`,
/// however the engine answers.
pub proof fn lemma_recv(
    socket: usize,
    flags: i32,
    alloc: i32,
    submit: i32,
    errno: i32,
    message: Seq<u8>,
    release: i32,
)
    requires
        message.len() <= usize::MAX,
    ensures
        performs(
            start_recv(socket, flags, false),
            recv_replies(alloc, submit, errno, message, release),
            recv_calls(socket, flags, alloc, submit, message),
            OutcomeView::Bytes(recv_result(alloc, submit, errno, message)),
        ),
{
    reveal_with_fuel(run_from, 6);
    reveal_with_fuel(asked_from, 6);
}

/// A receive as text makes the calls of a receive and returns the message
/// read as text.
pub proof fn lemma_recv_str(
    socket: usize,
    flags: i32,
    alloc: i32,
    submit: i32,
    errno: i32,
    message: Seq<u8>,
    release: i32,
)
    requires
        message.len() <= usize::MAX,
    ensures
        performs(
            start_recv(socket, flags, true),
            recv_replies(alloc, submit, errno, message, release),
            recv_calls(socket, flags, alloc, submit, message),
            OutcomeView::Text(recv_str_result(alloc, submit, errno, message)),
        ),
{
    reveal_with_fuel(run_from, 6);
    reveal_with_fuel(asked_from, 6);
}

/// A socket of any kind is opened wherever the engine hands back an
/// address that is not null, keeps the kind it was asked with, and is
/// closed wherever the engine's status for that is not negative.
pub proof fn lemma_socket_opens_and_closes(
    context: usize,
    kind: SocketKind,
    addr: usize,
    rc: i32,
)
    requires
        addr != 0,
        !failed(rc),
    ensures
        performs(
            start_socket(context, kind),
            seq![ReplyView::Handle(addr)],
            seq![CallView::Socket { context, kind: kind.spec_code() }],
            OutcomeView::Socket(Ok(SocketView { addr, kind })),
        ),
        0 <= kind.spec_code() <= 10,
        performs(
            start_close(addr),
            seq![ReplyView::Code(rc)],
            seq![CallView::Close { socket: addr }],
            OutcomeView::Unit(Ok(())),
        ),
{
    lemma_socket(context, kind, addr, 0);
    lemma_status(CallView::Close { socket: addr }, rc, 0);
}

/// Bytes that one socket sends and that the engine delivers unchanged to
/// another are exactly the bytes that a receive on the other returns: the
/// send hands the engine a buffer of their length that holds them, and the
/// receive returns what the engine's buffer holds.  This holds of the
/// empty payload too.
pub proof fn lemma_send_recv_round_trip(
    sender: usize,
    receiver: usize,
    data: Seq<u8>,
    send_flags: i32,
    recv_flags: i32,
    statuses: (i32, i32, i32, i32, i32, i32),
)
    requires
        data.len() <= usize::MAX,
        !failed(statuses.0),
        !failed(statuses.1),
        !failed(statuses.3),
        !failed(statuses.4),
    ensures
        performs(
            start_send(sender, data, send_flags),
            send_replies(statuses.0, statuses.1, 0, statuses.2),
            seq![
                CallView::MsgInitSize { size: data.len() as usize },
                CallView::MsgFill { bytes: data },
                CallView::MsgSend { socket: sender, flags: send_flags },
                CallView::MsgClose,
            ],
            OutcomeView::Unit(Ok(())),
        ),
        data.len() as usize == data.len(),
        performs(
            start_recv(receiver, recv_flags, false),
            recv_replies(statuses.3, statuses.4, 0, data, statuses.5),
            recv_calls(receiver, recv_flags, statuses.3, statuses.4, data),
            OutcomeView::Bytes(Ok(data)),
        ),
{
    lemma_send(sender, data, send_flags, statuses.0, statuses.1, 0, statuses.2);
    lemma_recv(receiver, recv_flags, statuses.3, statuses.4, 0, data, statuses.5);
}

/// A text that is sent, and whose bytes the engine delivers unchanged, is
/// the text that a receive as text returns.
pub proof fn lemma_text_round_trip(
    receiver: usize,
    text: Seq<char>,
    recv_flags: i32,
    alloc: i32,
    submit: i32,
    release: i32,
)
    requires
        encode_utf8(text).len() <= usize::MAX,
        !failed(alloc),
        !failed(submit),
    ensures
        performs(
            start_recv(receiver, recv_flags, true),
            recv_replies(alloc, submit, 0, encode_utf8(text), release),
            recv_calls(receiver, recv_flags, alloc, submit, encode_utf8(text)),
            OutcomeView::Text(Ok(text)),
        ),
{
    lemma_recv_str(receiver, recv_flags, alloc, submit, 0, encode_utf8(text), release);
    encode_utf8_valid_utf8(text);
    encode_utf8_decode_utf8(text);
}

/// An integer that is written to an option, and that the getter leaves in
/// the slot, is the integer that reading the option returns.
pub proof fn lemma_integer_option_round_trip(
    socket: usize,
    option: SocketOption,
    value: i64,
    rc: i32,
    size: usize,
)
    requires
        !failed(rc),
    ensures
        start_set(socket, option, OptionValueView::Int64(value))->Ask_0 == set_call(
            socket,
            option,
            OptionValueView::Int64(value),
        ),
        set_call(socket, option, OptionValueView::Int64(value)) == (CallView::SetOption {
            socket,
            option: option.spec_code(),
            value: OptionValueView::Int64(value),
            size: 8,
        }),
        performs(
            start_get(socket, option, OptionShape::Int64),
            seq![ReplyView::Slot { rc, value: OptionValueView::Int64(value), size }],
            seq![
                CallView::GetOption {
                    socket,
                    option: option.spec_code(),
                    shape: OptionShape::Int64,
                    size: 8,
                },
            ],
            OutcomeView::Int64(Ok(value)),
        ),
{
    lemma_get_i64(socket, option, rc, value, size, 0);
}

/// Bytes that are written to an option, and that the getter leaves at the
/// start of the slot while reporting their number, are the bytes that
/// reading the option returns.
pub proof fn lemma_bytes_option_round_trip(
    socket: usize,
    option: SocketOption,
    value: Seq<u8>,
    rc: i32,
    slot: Seq<u8>,
)
    requires
        !failed(rc),
        value.len() <= slot.len() <= usize::MAX,
        slot.subrange(0, value.len() as int) == value,
    ensures
        start_set(socket, option, OptionValueView::Bytes(value))->Ask_0 == set_call(
            socket,
            option,
            OptionValueView::Bytes(value),
        ),
        set_call(socket, option, OptionValueView::Bytes(value)) == (CallView::SetOption {
            socket,
            option: option.spec_code(),
            value: OptionValueView::Bytes(value),
            size: value.len() as usize,
        }),
        value.len() as usize == value.len(),
        performs(
            start_get(socket, option, OptionShape::Bytes),
            seq![
                ReplyView::Slot {
                    rc,
                    value: OptionValueView::Bytes(slot),
                    size: value.len() as usize,
                },
            ],
            seq![
                CallView::GetOption {
                    socket,
                    option: option.spec_code(),
                    shape: OptionShape::Bytes,
                    size: 255,
                },
            ],
            OutcomeView::Bytes(Ok(value)),
        ),
{
    lemma_get_vec(socket, option, rc, slot, value.len() as usize, 0);
}

} // verus!
