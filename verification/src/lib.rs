//! Sans-I/O core of a binding to a native messaging engine.
//!
//! The engine (contexts, sockets, message buffers, a per-thread error
//! number) is reached through foreign calls that this crate never makes.
//! Instead every operation is an exchange: the crate names the next native
//! call, the embedding program performs it and hands back the reply, until
//! the exchange is done and yields an outcome.  Which calls are made, in
//! which order, with which arguments, and what is returned for each answer
//! of the engine is decided and proved here.
pub mod constants;
pub mod discipline;
pub mod error;
pub mod exchange;
pub mod handle;
pub mod kinds;
pub mod laws;
pub mod ops;
pub mod text;
pub mod wire;

pub use crate::error::{errno_to_error, error_to_errno, Error};
pub use crate::exchange::{resume, Exchange, Step};
pub use crate::handle::{Context, Socket};
pub use crate::kinds::{SendOptions, SocketKind, SocketOption};
pub use crate::ops::{
    bind, close, connect, error_to_str, getsockopt_i64, getsockopt_u64, getsockopt_vec, init, recv,
    recv_str, send, send_str, setsockopt_i64, setsockopt_u64, setsockopt_vec, socket, term,
    version,
};
pub use crate::wire::{Call, OptionShape, OptionValue, Outcome, Reply, ResultShape};
