//! The JSON-RPC layer: request envelopes with their correlation ids, and the
//! reading of responses.
//!
//! Nothing here touches the network. [`Client::request`] says what to send;
//! [`Call::answer`] decides what came back.

use crate::codec::{Decode, Encode};
use crate::error::{Error, ErrorView, ProtocolError, RpcError, RpcErrorView, TransportError, TransportErrorView};
use crate::json::{parse, parsed, render, rendered, Json, JsonValue};
use vstd::prelude::*;

verus! {

/// The error codes that the service is known to send.
#[derive(Debug, Clone, Copy, PartialEq, Eq, Structural)]
pub enum ErrorCode {
    /// A school search matched more schools than the server lists.
    TooManyResults,
    /// The session is missing or has expired.
    NotAuthenticated,
    /// The user may not perform the operation.
    NotAuthorized,
    /// User name or password is wrong.
    BadCredentials,
    /// The school name is unknown to the server.
    InvalidSchool,
    /// The date lies outside what the school allows.
    InvalidDate,
    /// The server knows no such method.
    MethodNotFound,
}

impl ErrorCode {
    /// The number that the server sends for this code.
    pub open spec fn number(self) -> int {
        match self {
            ErrorCode::TooManyResults => -6003,
            ErrorCode::NotAuthenticated => -8520,
            ErrorCode::NotAuthorized => -8509,
            ErrorCode::BadCredentials => -8504,
            ErrorCode::InvalidSchool => -8500,
            ErrorCode::InvalidDate => -7004,
            ErrorCode::MethodNotFound => -32601,
        }
    }

    /// The known code with the number `code`; `None` for every other number.
    pub open spec fn known(code: int) -> Option<ErrorCode> {
        if code == -6003 {
            Some(ErrorCode::TooManyResults)
        } else if code == -8520 {
            Some(ErrorCode::NotAuthenticated)
        } else if code == -8509 {
            Some(ErrorCode::NotAuthorized)
        } else if code == -8504 {
            Some(ErrorCode::BadCredentials)
        } else if code == -8500 {
            Some(ErrorCode::InvalidSchool)
        } else if code == -7004 {
            Some(ErrorCode::InvalidDate)
        } else if code == -32601 {
            Some(ErrorCode::MethodNotFound)
        } else {
            None
        }
    }

    pub fn as_isize(&self) -> (r: isize)
        ensures
            r == self.number(),
    {
        match self {
            ErrorCode::TooManyResults => -6003,
            ErrorCode::NotAuthenticated => -8520,
            ErrorCode::NotAuthorized => -8509,
            ErrorCode::BadCredentials => -8504,
            ErrorCode::InvalidSchool => -8500,
            ErrorCode::InvalidDate => -7004,
            ErrorCode::MethodNotFound => -32601,
        }
    }

    /// Looks a number up in the table of known codes.
    pub fn lookup(code: i64) -> (r: Option<ErrorCode>)
        ensures
            r == ErrorCode::known(code as int),
    {
        if code == -6003 {
            Some(ErrorCode::TooManyResults)
        } else if code == -8520 {
            Some(ErrorCode::NotAuthenticated)
        } else if code == -8509 {
            Some(ErrorCode::NotAuthorized)
        } else if code == -8504 {
            Some(ErrorCode::BadCredentials)
        } else if code == -8500 {
            Some(ErrorCode::InvalidSchool)
        } else if code == -7004 {
            Some(ErrorCode::InvalidDate)
        } else if code == -32601 {
            Some(ErrorCode::MethodNotFound)
        } else {
            None
        }
    }

    /// Every known code is found under its own number, and a number is found
    /// only under the code that has it.
    pub proof fn lemma_table_is_consistent(code: ErrorCode, number: int)
        ensures
            ErrorCode::known(code.number()) == Some(code),
            ErrorCode::known(number) == Some(code) ==> number == code.number(),
    {
    }
}

impl RpcError {
    /// What the code means, where the table knows it. The code and the
    /// message stay in the error either way.
    pub fn kind(&self) -> (r: Option<ErrorCode>)
        ensures
            r == ErrorCode::known(self.code as int),
    {
        ErrorCode::lookup(self.code)
    }
}

/// The JSON-RPC handle for one endpoint: its URL and the id counter.
pub struct Client {
    url: String,
    last_id: i64,
}

/// One request, ready to be sent: POST `body` to `url`. `R` is the type of
/// the result that the operation returns.
#[derive(Debug)]
pub struct Call<R> {
    pub id: i64,
    pub url: String,
    pub body: String,
    pub marker: core::marker::PhantomData<R>,
}

/// What the transport brought back for one request.
#[derive(Debug, Clone, PartialEq, Eq)]
pub enum Reply {
    /// An HTTP response, with its status and body.
    Received { status: u16, body: String },
    /// No response: connection failure, timeout and the like.
    Failed { reason: String },
}

pub enum ReplyView {
    Received { status: u16, body: Seq<char> },
    Failed { reason: Seq<char> },
}

impl View for Reply {
    type V = ReplyView;

    open spec fn view(&self) -> ReplyView {
        match self {
            Reply::Received { status, body } => ReplyView::Received { status: *status, body: body@ },
            Reply::Failed { reason } => ReplyView::Failed { reason: reason@ },
        }
    }
}

/// The request envelope for `method` with `params` under the id `id`.
pub open spec fn envelope(id: i64, method: Seq<char>, params: JsonValue) -> JsonValue {
    JsonValue::Object(
        seq![
            ("id"@, JsonValue::Number(Some(id as i128))),
            ("method"@, JsonValue::Text(method)),
            ("params"@, params),
        ],
    )
}

/// Whether a member is there and holds something other than `null`.
pub open spec fn present(member: Option<JsonValue>) -> bool {
    member matches Some(v) && !(v is Null)
}

/// What a server's `error` member says.
pub open spec fn server_error(error: JsonValue) -> ErrorView {
    match (error.int_member("code"@), error.text_member("message"@)) {
        (Some(code), Some(message)) => if i64::MIN <= code <= i64::MAX {
            ErrorView::Rpc(RpcErrorView { code: code as i64, message })
        } else {
            ErrorView::Protocol(ProtocolError::Malformed)
        },
        _ => ErrorView::Protocol(ProtocolError::Malformed),
    }
}

/// What a response envelope means to the request with the id `id`: the
/// result that it carries, or the failure.
///
/// The id is looked at first. An envelope with another id, or with none, is
/// a protocol error whatever else it holds. After that an `error` other than
/// `null` is the server's error, unless a `result` other than `null` stands
/// beside it; without an error the `result` member is the result, and must
/// be there.
pub open spec fn payload(id: i64, envelope: JsonValue) -> Result<JsonValue, ErrorView> {
    match envelope.int_member("id"@) {
        None => Err(ErrorView::Protocol(ProtocolError::Malformed)),
        Some(received) => if received != id as i128 {
            Err(ErrorView::Protocol(ProtocolError::IdMismatch { expected: id, received }))
        } else if present(envelope.member("error"@)) {
            if present(envelope.member("result"@)) {
                Err(ErrorView::Protocol(ProtocolError::Malformed))
            } else {
                Err(server_error(envelope.member("error"@)->0))
            }
        } else {
            match envelope.member("result"@) {
                Some(result) => Ok(result),
                None => Err(ErrorView::Protocol(ProtocolError::Malformed)),
            }
        },
    }
}

/// What a response body means, given what the JSON parser made of it.
pub open spec fn body_payload(id: i64, document: Option<JsonValue>) -> Result<JsonValue, ErrorView> {
    match document {
        Some(envelope) => payload(id, envelope),
        None => Err(ErrorView::Protocol(ProtocolError::NotJson)),
    }
}

/// What the transport's reply means to the request with the id `id`: a
/// transport error where nothing came back or the status is outside
/// 200..=299, and otherwise what the body means once parsed.
pub open spec fn reply_payload(id: i64, reply: ReplyView) -> Result<JsonValue, ErrorView> {
    match reply {
        ReplyView::Failed { reason } => Err(ErrorView::Transport(TransportErrorView::Failed(reason))),
        ReplyView::Received { status, body } => if 200 <= status < 300 {
            body_payload(id, parsed(body))
        } else {
            Err(ErrorView::Transport(TransportErrorView::Status(status)))
        },
    }
}

/// Whether `r` is the typed reading of `outcome`: its failure passed on, or
/// its result decoded to the value it describes, or a decode error where the
/// result has another shape.
pub open spec fn reading<R: Decode>(outcome: Result<JsonValue, ErrorView>, r: Result<R, Error>) -> bool {
    match outcome {
        Err(e) => r matches Err(x) && x@ == e,
        Ok(result) => if R::fits(result) {
            r matches Ok(value) && value.holds(result)
        } else {
            r matches Err(x) && x@ == ErrorView::Decode
        },
    }
}

fn read_server_error(error: &Json) -> (r: Error)
    ensures
        r@ == server_error(error@),
{
    match error.int_member("code") {
        Some(code) => match error.text_member("message") {
            Some(message) => {
                if i64::MIN as i128 <= code && code <= i64::MAX as i128 {
                    Error::Rpc(RpcError { code: code as i64, message: message.clone() })
                } else {
                    Error::Protocol(ProtocolError::Malformed)
                }
            },
            None => Error::Protocol(ProtocolError::Malformed),
        },
        None => Error::Protocol(ProtocolError::Malformed),
    }
}

fn is_present(member: Option<&Json>) -> (r: bool)
    ensures
        r == present(
            match member {
                Some(j) => Some(j@),
                None => None,
            },
        ),
{
    match member {
        Some(Json::Null) => false,
        Some(_) => true,
        None => false,
    }
}

/// Matches a response envelope against the id of the request and hands out
/// the result that it carries.
pub fn correlate<'a>(id: i64, envelope: &'a Json) -> (r: Result<&'a Json, Error>)
    ensures
        match payload(id, envelope@) {
            Ok(result) => r matches Ok(j) && j@ == result,
            Err(e) => r matches Err(x) && x@ == e,
        },
{
    let received = match envelope.int_member("id") {
        Some(received) => received,
        None => {
            return Err(Error::Protocol(ProtocolError::Malformed));
        },
    };
    if received != id as i128 {
        return Err(Error::Protocol(ProtocolError::IdMismatch { expected: id, received }));
    }
    let error = envelope.member("error");
    let result = envelope.member("result");
    if is_present(error) {
        if is_present(result) {
            Err(Error::Protocol(ProtocolError::Malformed))
        } else {
            match error {
                Some(e) => Err(read_server_error(e)),
                None => Err(Error::Protocol(ProtocolError::Malformed)),
            }
        }
    } else {
        match result {
            Some(j) => Ok(j),
            None => Err(Error::Protocol(ProtocolError::Malformed)),
        }
    }
}

impl Client {
    pub closed spec fn url(&self) -> Seq<char> {
        self.url@
    }

    /// The id of the last request made through this handle; 0 before the
    /// first.
    pub closed spec fn last_id(&self) -> i64 {
        self.last_id
    }

    /// A handle for the endpoint at `url` that has made no request yet.
    pub fn new(url: &str) -> (r: Client)
        ensures
            r.url() == url@,
            r.last_id() == 0,
    {
        Client { url: String::from_str(url), last_id: 0 }
    }

    /// Whether the counter can give another id.
    pub fn can_request(&self) -> (r: bool)
        ensures
            r == (self.last_id() < i64::MAX),
    {
        self.last_id < i64::MAX
    }

    /// Takes the next id and builds the request for `method` with `params`.
    ///
    /// The id is one more than that of the last request of this handle, so
    /// the ids of a handle strictly increase. The body is the compact JSON
    /// text of the envelope with the members `id`, `method` and `params`, in
    /// that order.
    pub fn request<P: Encode, R: Decode>(&mut self, method: &str, params: &P) -> (call: Call<R>)
        requires
            old(self).last_id() < i64::MAX,
        ensures
            final(self).last_id() == old(self).last_id() + 1,
            final(self).url() == old(self).url(),
            call.id == final(self).last_id(),
            call.url@ == old(self).url(),
            call.body@ == rendered(envelope(call.id, method@, params.encoded())),
    {
        let id = self.last_id + 1;
        self.last_id = id;
        let mut members: Vec<(String, Json)> = Vec::new();
        members.push((String::from_str("id"), Json::Number(Some(id as i128))));
        members.push((String::from_str("method"), Json::Text(String::from_str(method))));
        members.push((String::from_str("params"), params.encode()));
        let document = Json::Object(members);
        proof {
            document.lemma_object_view();
            let members = envelope(id, method@, params.encoded())->Object_0;
            assert(document@->Object_0 =~= members);
            assert forall|i: int| 0 <= i < members.len() implies (#[trigger] members[i]).1.exact() by {
                if i == 0 {
                } else if i == 1 {
                } else {
                    assert(members[i].1 == params.encoded());
                }
            }
        }
        Call { id, url: self.url.clone(), body: render(&document), marker: core::marker::PhantomData }
    }
}

impl<R: Decode> Call<R> {
    /// Reads a parsed response envelope as the answer to this call.
    pub fn read(&self, document: &Json) -> (r: Result<R, Error>)
        ensures
            reading(payload(self.id, document@), r),
    {
        match correlate(self.id, document) {
            Ok(result) => match R::decode(result) {
                Some(value) => Ok(value),
                None => Err(Error::Decode),
            },
            Err(e) => Err(e),
        }
    }

    /// Decides what the transport's reply means for this call.
    ///
    /// A failed transport and a status outside 200..=299 are transport
    /// errors. Otherwise the body is parsed and read as by [`Call::read`]; a
    /// body that is no JSON is a protocol error.
    pub fn answer(&self, reply: &Reply) -> (r: Result<R, Error>)
        ensures
            reading(reply_payload(self.id, reply@), r),
    {
        match reply {
            Reply::Failed { reason } => Err(Error::Transport(TransportError::Failed(reason.clone()))),
            Reply::Received { status, body } => {
                if 200 <= *status && *status < 300 {
                    match parse(body.as_str()) {
                        Some(document) => self.read(&document),
                        None => Err(Error::Protocol(ProtocolError::NotJson)),
                    }
                } else {
                    Err(Error::Transport(TransportError::Status(*status)))
                }
            },
        }
    }
}

/// An envelope whose id is not that of the request is a protocol error: no
/// result is handed out, whatever the envelope carries and whatever type
/// the caller asked for.
pub proof fn lemma_foreign_id_is_protocol_error<R: Decode>(id: i64, envelope: JsonValue, r: Result<R, Error>)
    requires
        envelope.int_member("id"@) != Some(id as i128),
        reading(payload(id, envelope), r),
    ensures
        payload(id, envelope) matches Err(ErrorView::Protocol(_)),
        r matches Err(Error::Protocol(_)),
{
}

/// The same of a whole reply: where the body of a response parses to an
/// envelope with another id, the call ends in a protocol error.
pub proof fn lemma_foreign_reply_is_protocol_error<R: Decode>(
    id: i64,
    status: u16,
    body: Seq<char>,
    envelope: JsonValue,
    r: Result<R, Error>,
)
    requires
        200 <= status < 300,
        parsed(body) == Some(envelope),
        envelope.int_member("id"@) != Some(id as i128),
        reading(reply_payload(id, ReplyView::Received { status, body }), r),
    ensures
        r matches Err(Error::Protocol(_)),
{
}

/// A server error reaches the caller with the code and the message that the
/// server sent, whether the table knows the code or not.
pub proof fn lemma_server_error_is_kept(id: i64, envelope: JsonValue, code: i64, message: Seq<char>)
    requires
        envelope.int_member("id"@) == Some(id as i128),
        !present(envelope.member("result"@)),
        envelope.member("error"@) matches Some(error) && error.int_member("code"@) == Some(code as i128)
            && error.text_member("message"@) == Some(message),
    ensures
        payload(id, envelope) == Err::<JsonValue, ErrorView>(ErrorView::Rpc(RpcErrorView { code, message })),
{
}

} // verus!
