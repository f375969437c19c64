//! What passes between this crate and the program that performs the native
//! calls: the calls to make, the engine's replies, and the outcome of an
//! operation.  Each type has a view that holds its bytes and texts as
//! sequences; the contracts are stated over the views.
use vstd::prelude::*;
use crate::error::Error;
use crate::handle::{Context, Socket, SocketView};

verus! {

/// The number of bytes set aside for reading a binary option: the longest
/// value that the engine's one binary option, the identity, can have.
pub const MAX_BINARY_OPTION: usize = 255;

/// The number of bytes of an integer option.
pub const INTEGER_OPTION_SIZE: usize = 8;

/// The three shapes that the value of a socket option can have.
#[derive(Debug, Clone, Copy, PartialEq, Eq, Structural)]
pub enum OptionShape {
    Int64,
    UInt64,
    Bytes,
}

impl OptionShape {
    /// The size of the slot that is handed to the engine's getter.
    pub open spec fn spec_capacity(self) -> usize {
        match self {
            OptionShape::Int64 => INTEGER_OPTION_SIZE,
            OptionShape::UInt64 => INTEGER_OPTION_SIZE,
            OptionShape::Bytes => MAX_BINARY_OPTION,
        }
    }

    /// The size of the slot that is handed to the engine's getter.
    #[verifier::when_used_as_spec(spec_capacity)]
    pub fn capacity(self) -> (size: usize)
        ensures
            size == self.spec_capacity(),
    {
        match self {
            OptionShape::Int64 => INTEGER_OPTION_SIZE,
            OptionShape::UInt64 => INTEGER_OPTION_SIZE,
            OptionShape::Bytes => MAX_BINARY_OPTION,
        }
    }
}

/// The value of a socket option, as it lies in the slot handed to the engine.
#[derive(Debug, Clone, PartialEq, Eq)]
pub enum OptionValue {
    Int64(i64),
    UInt64(u64),
    Bytes(Vec<u8>),
}

/// An option value with its bytes as a sequence.
pub enum OptionValueView {
    Int64(i64),
    UInt64(u64),
    Bytes(Seq<u8>),
}

impl OptionValueView {
    pub open spec fn shape(self) -> OptionShape {
        match self {
            OptionValueView::Int64(_) => OptionShape::Int64,
            OptionValueView::UInt64(_) => OptionShape::UInt64,
            OptionValueView::Bytes(_) => OptionShape::Bytes,
        }
    }

    /// The number of bytes that the value takes.
    pub open spec fn width(self) -> nat {
        match self {
            OptionValueView::Int64(_) => INTEGER_OPTION_SIZE as nat,
            OptionValueView::UInt64(_) => INTEGER_OPTION_SIZE as nat,
            OptionValueView::Bytes(bytes) => bytes.len(),
        }
    }
}

impl View for OptionValue {
    type V = OptionValueView;

    open spec fn view(&self) -> OptionValueView {
        match self {
            OptionValue::Int64(value) => OptionValueView::Int64(*value),
            OptionValue::UInt64(value) => OptionValueView::UInt64(*value),
            OptionValue::Bytes(bytes) => OptionValueView::Bytes(bytes@),
        }
    }
}

/// One call into the engine.  Handles are given by their addresses.
#[derive(Debug, Clone, PartialEq, Eq)]
pub enum Call {
    /// Ask for the engine's version.
    Version,
    /// Create a context that runs `io_threads` background threads.
    Init { io_threads: i32 },
    /// Destroy the context at `context`.
    Term { context: usize },
    /// Create a socket of the kind numbered `kind` in the context at `context`.
    Socket { context: usize, kind: i32 },
    /// Destroy the socket at `socket`.
    Close { socket: usize },
    /// Accept connections to `socket` at `endpoint`.
    Bind { socket: usize, endpoint: String },
    /// Connect `socket` to `endpoint`.
    Connect { socket: usize, endpoint: String },
    /// Read the option numbered `option` into a slot of `shape` and of `size` bytes.
    GetOption { socket: usize, option: i32, shape: OptionShape, size: usize },
    /// Write the `size` bytes of `value` to the option numbered `option`.
    SetOption { socket: usize, option: i32, value: OptionValue, size: usize },
    /// Initialise the operation's message buffer, empty.
    MsgInit,
    /// Initialise the operation's message buffer with room for `size` bytes.
    MsgInitSize { size: usize },
    /// Copy `bytes` to the start of the message buffer's storage.
    MsgFill { bytes: Vec<u8> },
    /// Submit the message buffer to `socket` for sending.
    MsgSend { socket: usize, flags: i32 },
    /// Receive a message from `socket` into the message buffer.
    MsgRecv { socket: usize, flags: i32 },
    /// Ask for the number of bytes that the message buffer holds.
    MsgSize,
    /// Copy the first `len` bytes out of the message buffer's storage.
    MsgRead { len: usize },
    /// Release the message buffer.
    MsgClose,
    /// Read the calling thread's last error number.
    Errno,
    /// Ask for the engine's description of the error number `code`.
    Strerror { code: i32 },
}

/// A call with its bytes and texts as sequences.
pub enum CallView {
    Version,
    Init { io_threads: i32 },
    Term { context: usize },
    Socket { context: usize, kind: i32 },
    Close { socket: usize },
    Bind { socket: usize, endpoint: Seq<char> },
    Connect { socket: usize, endpoint: Seq<char> },
    GetOption { socket: usize, option: i32, shape: OptionShape, size: usize },
    SetOption { socket: usize, option: i32, value: OptionValueView, size: usize },
    MsgInit,
    MsgInitSize { size: usize },
    MsgFill { bytes: Seq<u8> },
    MsgSend { socket: usize, flags: i32 },
    MsgRecv { socket: usize, flags: i32 },
    MsgSize,
    MsgRead { len: usize },
    MsgClose,
    Errno,
    Strerror { code: i32 },
}

impl View for Call {
    type V = CallView;

    open spec fn view(&self) -> CallView {
        match self {
            Call::Version => CallView::Version,
            Call::Init { io_threads } => CallView::Init { io_threads: *io_threads },
            Call::Term { context } => CallView::Term { context: *context },
            Call::Socket { context, kind } => CallView::Socket { context: *context, kind: *kind },
            Call::Close { socket } => CallView::Close { socket: *socket },
            Call::Bind { socket, endpoint } => CallView::Bind {
                socket: *socket,
                endpoint: endpoint@,
            },
            Call::Connect { socket, endpoint } => CallView::Connect {
                socket: *socket,
                endpoint: endpoint@,
            },
            Call::GetOption { socket, option, shape, size } => CallView::GetOption {
                socket: *socket,
                option: *option,
                shape: *shape,
                size: *size,
            },
            Call::SetOption { socket, option, value, size } => CallView::SetOption {
                socket: *socket,
                option: *option,
                value: value@,
                size: *size,
            },
            Call::MsgInit => CallView::MsgInit,
            Call::MsgInitSize { size } => CallView::MsgInitSize { size: *size },
            Call::MsgFill { bytes } => CallView::MsgFill { bytes: bytes@ },
            Call::MsgSend { socket, flags } => CallView::MsgSend { socket: *socket, flags: *flags },
            Call::MsgRecv { socket, flags } => CallView::MsgRecv { socket: *socket, flags: *flags },
            Call::MsgSize => CallView::MsgSize,
            Call::MsgRead { len } => CallView::MsgRead { len: *len },
            Call::MsgClose => CallView::MsgClose,
            Call::Errno => CallView::Errno,
            Call::Strerror { code } => CallView::Strerror { code: *code },
        }
    }
}

/// What the engine answered to one call.
#[derive(Debug, Clone, PartialEq, Eq)]
pub enum Reply {
    /// The call returns nothing (a copy into the message buffer).
    Nothing,
    /// The integer that the call returned: a status, or the error number.
    Code(i32),
    /// The address that the call returned; null is 0.
    Handle(usize),
    /// The three parts of the engine's version.
    Version { major: i32, minor: i32, patch: i32 },
    /// The status that the getter returned, the slot as the getter left it,
    /// and the number of bytes that it reports to have written.
    Slot { rc: i32, value: OptionValue, size: usize },
    /// The size that the call returned.
    Size(usize),
    /// The bytes copied out of the message buffer.
    Bytes(Vec<u8>),
    /// The text that the call returned, or `None` for a null pointer.
    Text(Option<String>),
}

/// A reply with its bytes and texts as sequences.
pub enum ReplyView {
    Nothing,
    Code(i32),
    Handle(usize),
    Version { major: i32, minor: i32, patch: i32 },
    Slot { rc: i32, value: OptionValueView, size: usize },
    Size(usize),
    Bytes(Seq<u8>),
    Text(Option<Seq<char>>),
}

impl View for Reply {
    type V = ReplyView;

    open spec fn view(&self) -> ReplyView {
        match self {
            Reply::Nothing => ReplyView::Nothing,
            Reply::Code(code) => ReplyView::Code(*code),
            Reply::Handle(addr) => ReplyView::Handle(*addr),
            Reply::Version { major, minor, patch } => ReplyView::Version {
                major: *major,
                minor: *minor,
                patch: *patch,
            },
            Reply::Slot { rc, value, size } => ReplyView::Slot {
                rc: *rc,
                value: value@,
                size: *size,
            },
            Reply::Size(size) => ReplyView::Size(*size),
            Reply::Bytes(bytes) => ReplyView::Bytes(bytes@),
            Reply::Text(text) => ReplyView::Text(
                match text {
                    Some(text) => Some(text@),
                    None => None,
                },
            ),
        }
    }
}

/// What an operation returns to its caller.
#[derive(Debug, PartialEq, Eq)]
pub enum Outcome {
    /// The engine's version: major, minor, patch.
    Version(isize, isize, isize),
    /// The engine's description of an error; empty where it has none.
    Description(String),
    Context(Result<Context, Error>),
    Socket(Result<Socket, Error>),
    Unit(Result<(), Error>),
    Int64(Result<i64, Error>),
    UInt64(Result<u64, Error>),
    Bytes(Result<Vec<u8>, Error>),
    Text(Result<String, Error>),
}

/// An outcome with its bytes and texts as sequences, and with handles as
/// what they stand for.
pub enum OutcomeView {
    Version(isize, isize, isize),
    Description(Seq<char>),
    Context(Result<usize, Error>),
    Socket(Result<SocketView, Error>),
    Unit(Result<(), Error>),
    Int64(Result<i64, Error>),
    UInt64(Result<u64, Error>),
    Bytes(Result<Seq<u8>, Error>),
    Text(Result<Seq<char>, Error>),
}

impl View for Outcome {
    type V = OutcomeView;

    open spec fn view(&self) -> OutcomeView {
        match self {
            Outcome::Version(major, minor, patch) => OutcomeView::Version(*major, *minor, *patch),
            Outcome::Description(text) => OutcomeView::Description(text@),
            Outcome::Context(result) => OutcomeView::Context(
                match result {
                    Ok(context) => Ok(context@),
                    Err(error) => Err(*error),
                },
            ),
            Outcome::Socket(result) => OutcomeView::Socket(
                match result {
                    Ok(socket) => Ok(socket@),
                    Err(error) => Err(*error),
                },
            ),
            Outcome::Unit(result) => OutcomeView::Unit(*result),
            Outcome::Int64(result) => OutcomeView::Int64(*result),
            Outcome::UInt64(result) => OutcomeView::UInt64(*result),
            Outcome::Bytes(result) => OutcomeView::Bytes(
                match result {
                    Ok(bytes) => Ok(bytes@),
                    Err(error) => Err(*error),
                },
            ),
            Outcome::Text(result) => OutcomeView::Text(
                match result {
                    Ok(text) => Ok(text@),
                    Err(error) => Err(*error),
                },
            ),
        }
    }
}

/// The shape of what an operation returns where it can fail.
#[derive(Debug, Clone, Copy, PartialEq, Eq, Structural)]
pub enum ResultShape {
    Context,
    Socket,
    Unit,
    Int64,
    UInt64,
    Bytes,
    Text,
}

impl ResultShape {
    /// The outcome of an operation of this shape that failed with `error`.
    pub open spec fn failure(self, error: Error) -> OutcomeView {
        match self {
            ResultShape::Context => OutcomeView::Context(Err(error)),
            ResultShape::Socket => OutcomeView::Socket(Err(error)),
            ResultShape::Unit => OutcomeView::Unit(Err(error)),
            ResultShape::Int64 => OutcomeView::Int64(Err(error)),
            ResultShape::UInt64 => OutcomeView::UInt64(Err(error)),
            ResultShape::Bytes => OutcomeView::Bytes(Err(error)),
            ResultShape::Text => OutcomeView::Text(Err(error)),
        }
    }

    /// The outcome of an operation of this shape that failed with `error`.
    pub fn fail(self, error: Error) -> (outcome: Outcome)
        ensures
            outcome@ == self.failure(error),
    {
        match self {
            ResultShape::Context => Outcome::Context(Err(error)),
            ResultShape::Socket => Outcome::Socket(Err(error)),
            ResultShape::Unit => Outcome::Unit(Err(error)),
            ResultShape::Int64 => Outcome::Int64(Err(error)),
            ResultShape::UInt64 => Outcome::UInt64(Err(error)),
            ResultShape::Bytes => Outcome::Bytes(Err(error)),
            ResultShape::Text => Outcome::Text(Err(error)),
        }
    }
}

impl OptionShape {
    /// The shape of what reading an option of this shape returns.
    pub open spec fn spec_result(self) -> ResultShape {
        match self {
            OptionShape::Int64 => ResultShape::Int64,
            OptionShape::UInt64 => ResultShape::UInt64,
            OptionShape::Bytes => ResultShape::Bytes,
        }
    }

    /// The shape of what reading an option of this shape returns.
    #[verifier::when_used_as_spec(spec_result)]
    pub fn result(self) -> (shape: ResultShape)
        ensures
            shape == self.spec_result(),
    {
        match self {
            OptionShape::Int64 => ResultShape::Int64,
            OptionShape::UInt64 => ResultShape::UInt64,
            OptionShape::Bytes => ResultShape::Bytes,
        }
    }
}

} // verus!
