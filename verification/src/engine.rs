//! The requests that the engine is sent and the replies that it gives.

use crate::error::{EngineOp, Failure, FailureView};
use vstd::prelude::*;
use vstd::string::*;

verus! {

/// The HTTP methods that the engine's operations use.
#[derive(Debug, Clone, Copy, PartialEq, Eq, Structural)]
pub enum Method {
    Get,
    Post,
    Delete,
}

/// One HTTP header.
#[derive(Debug, Clone, PartialEq, Eq)]
pub struct Header {
    pub name: String,
    pub value: String,
}

impl View for Header {
    type V = (Seq<char>, Seq<char>);

    open spec fn view(&self) -> (Seq<char>, Seq<char>) {
        (self.name@, self.value@)
    }
}

/// What a request carries.
#[derive(Debug, Clone, PartialEq, Eq)]
pub enum Body {
    Empty,
    Text(String),
    Bytes(Vec<u8>),
}

/// What a request carries, as sequences.
pub enum BodyView {
    Empty,
    Text(Seq<char>),
    Bytes(Seq<u8>),
}

impl View for Body {
    type V = BodyView;

    open spec fn view(&self) -> BodyView {
        match self {
            Body::Empty => BodyView::Empty,
            Body::Text(text) => BodyView::Text(text@),
            Body::Bytes(bytes) => BodyView::Bytes(bytes@),
        }
    }
}

/// One request to the engine. It is sent once, and not repeated.
#[derive(Debug, Clone, PartialEq, Eq)]
pub struct EngineRequest {
    pub op: EngineOp,
    pub method: Method,
    pub url: String,
    pub headers: Vec<Header>,
    pub body: Body,
}

/// A request as sequences.
pub struct RequestView {
    pub op: EngineOp,
    pub method: Method,
    pub url: Seq<char>,
    pub headers: Seq<(Seq<char>, Seq<char>)>,
    pub body: BodyView,
}

impl View for EngineRequest {
    type V = RequestView;

    open spec fn view(&self) -> RequestView {
        RequestView {
            op: self.op,
            method: self.method,
            url: self.url@,
            headers: Seq::new(self.headers@.len(), |i: int| self.headers@[i]@),
            body: self.body@,
        }
    }
}

/// What came back for one request.
#[derive(Debug, Clone, PartialEq, Eq)]
pub enum Reply {
    /// The engine answered with an HTTP status and a body, read in full.
    Response { status: u16, body: String },
    /// The bytes were written to the container's input stream.
    Written,
    /// The request could not be sent, or no answer was received.
    Unreachable { message: String },
}

/// A reply with its texts as sequences of characters.
pub enum ReplyView {
    Response { status: u16, body: Seq<char> },
    Written,
    Unreachable { message: Seq<char> },
}

impl View for Reply {
    type V = ReplyView;

    open spec fn view(&self) -> ReplyView {
        match self {
            Reply::Response { status, body } => ReplyView::Response { status: *status, body: body@ },
            Reply::Written => ReplyView::Written,
            Reply::Unreachable { message } => ReplyView::Unreachable { message: message@ },
        }
    }
}

/// The HTTP status with which the engine confirms an operation. Writing to
/// a container's input is a stream write and has none.
pub open spec fn expected_status(op: EngineOp) -> Option<u16> {
    match op {
        EngineOp::Pull => Some(200u16),
        EngineOp::Create => Some(201u16),
        EngineOp::Start => Some(204u16),
        EngineOp::Stdin => None,
        EngineOp::Wait => Some(200u16),
        EngineOp::Logs => Some(200u16),
        EngineOp::Delete => Some(204u16),
    }
}

/// Whether `reply` confirms the operation.
pub open spec fn confirms(op: EngineOp, reply: ReplyView) -> bool {
    match reply {
        ReplyView::Response { status, body } => expected_status(op) == Some(status),
        ReplyView::Written => op == EngineOp::Stdin,
        ReplyView::Unreachable { message } => false,
    }
}

/// The body that came with a reply.
pub open spec fn reply_body(reply: ReplyView) -> Seq<char> {
    match reply {
        ReplyView::Response { status, body } => body,
        ReplyView::Written => Seq::empty(),
        ReplyView::Unreachable { message } => message,
    }
}

/// The failure that a reply stands for where it does not confirm the
/// operation. An answer of the engine is an engine failure with its status
/// and body; so is a failed write to the input stream, without a status;
/// any other request that got no answer is a transport failure.
pub open spec fn refusal(op: EngineOp, reply: ReplyView) -> FailureView {
    match reply {
        ReplyView::Response { status, body } => FailureView::Engine {
            op,
            status: Some(status),
            body,
        },
        ReplyView::Written => FailureView::Engine { op, status: None, body: Seq::empty() },
        ReplyView::Unreachable { message } => if op == EngineOp::Stdin {
            FailureView::Engine { op, status: None, body: message }
        } else {
            FailureView::Transport { op, message }
        },
    }
}

/// What a reply means for the operation: its body where it confirms the
/// operation, the failure where it does not.
pub open spec fn checked(op: EngineOp, reply: ReplyView) -> Result<Seq<char>, FailureView> {
    if confirms(op, reply) {
        Ok(reply_body(reply))
    } else {
        Err(refusal(op, reply))
    }
}

/// `res` is the executable form of `expected`.
pub open spec fn text_result_is(
    res: Result<String, Failure>,
    expected: Result<Seq<char>, FailureView>,
) -> bool {
    match res {
        Ok(text) => expected == Ok::<Seq<char>, FailureView>(text@),
        Err(e) => expected == Err::<Seq<char>, FailureView>(e@),
    }
}

/// `res` is the executable form of `expected`, whose text is not kept.
pub open spec fn unit_result_is(
    res: Result<(), Failure>,
    expected: Result<Seq<char>, FailureView>,
) -> bool {
    match res {
        Ok(_) => expected is Ok,
        Err(e) => expected == Err::<Seq<char>, FailureView>(e@),
    }
}

/// The status that confirms an operation.
pub fn status_for(op: EngineOp) -> (status: Option<u16>)
    ensures
        status == expected_status(op),
{
    match op {
        EngineOp::Pull => Some(200),
        EngineOp::Create => Some(201),
        EngineOp::Start => Some(204),
        EngineOp::Stdin => None,
        EngineOp::Wait => Some(200),
        EngineOp::Logs => Some(200),
        EngineOp::Delete => Some(204),
    }
}

/// Holds a reply against what the operation expects: the status decides,
/// and nothing else.
pub fn check_reply(op: EngineOp, reply: Reply) -> (res: Result<String, Failure>)
    ensures
        text_result_is(res, checked(op, reply@)),
{
    match reply {
        Reply::Response { status, body } => {
            match status_for(op) {
                Some(expected) => {
                    if status == expected {
                        Ok(body)
                    } else {
                        Err(Failure::Engine { op, status: Some(status), body })
                    }
                },
                None => Err(Failure::Engine { op, status: Some(status), body }),
            }
        },
        Reply::Written => {
            match op {
                EngineOp::Stdin => Ok(String::new()),
                _ => Err(Failure::Engine { op, status: None, body: String::new() }),
            }
        },
        Reply::Unreachable { message } => {
            match op {
                EngineOp::Stdin => Err(Failure::Engine { op, status: None, body: message }),
                _ => Err(Failure::Transport { op, message }),
            }
        },
    }
}

} // verus!
