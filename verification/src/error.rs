//! The failures a call can end in.

use vstd::prelude::*;

verus! {

/// The request never produced a usable HTTP response.
#[derive(Debug, Clone, PartialEq, Eq)]
pub enum TransportError {
    /// The connection failed or timed out; the text says how.
    Failed(String),
    /// The server answered with a status outside 200..=299.
    Status(u16),
}

pub enum TransportErrorView {
    Failed(Seq<char>),
    Status(u16),
}

impl View for TransportError {
    type V = TransportErrorView;

    open spec fn view(&self) -> TransportErrorView {
        match self {
            TransportError::Failed(reason) => TransportErrorView::Failed(reason@),
            TransportError::Status(status) => TransportErrorView::Status(*status),
        }
    }
}

/// The response is not the answer to the request that was sent.
#[derive(Debug, Clone, Copy, PartialEq, Eq, Structural)]
pub enum ProtocolError {
    /// The body is not JSON.
    NotJson,
    /// The body is JSON but no response envelope: no object, no integer
    /// `id`, neither or both of `result` and `error`, or an `error` without
    /// a text `message` and an integer `code` of at most 64 bits.
    Malformed,
    /// The envelope answers another request.
    IdMismatch { expected: i64, received: i128 },
}

/// An error reported by the server, with its code and message as sent.
#[derive(Debug, Clone, PartialEq, Eq)]
pub struct RpcError {
    pub code: i64,
    pub message: String,
}

pub struct RpcErrorView {
    pub code: i64,
    pub message: Seq<char>,
}

impl View for RpcError {
    type V = RpcErrorView;

    open spec fn view(&self) -> RpcErrorView {
        RpcErrorView { code: self.code, message: self.message@ }
    }
}

/// Why a call failed.
#[derive(Debug, Clone, PartialEq, Eq)]
pub enum Error {
    /// Network failure or non-success HTTP status.
    Transport(TransportError),
    /// Malformed response or id mismatch.
    Protocol(ProtocolError),
    /// The server reported an error.
    Rpc(RpcError),
    /// The result does not have the shape that the operation returns.
    Decode,
    /// A lookup by identity matched nothing.
    NotFound,
}

pub enum ErrorView {
    Transport(TransportErrorView),
    Protocol(ProtocolError),
    Rpc(RpcErrorView),
    Decode,
    NotFound,
}

impl View for Error {
    type V = ErrorView;

    open spec fn view(&self) -> ErrorView {
        match self {
            Error::Transport(e) => ErrorView::Transport(e@),
            Error::Protocol(e) => ErrorView::Protocol(*e),
            Error::Rpc(e) => ErrorView::Rpc(e@),
            Error::Decode => ErrorView::Decode,
            Error::NotFound => ErrorView::NotFound,
        }
    }
}

} // verus!
