//! What the front door decides for one call: which function is meant, what
//! its input is, and how the outcome is answered.

use crate::config::FunctionData;
use crate::engine::EngineRequest;
use crate::error::{invocation_error_text, InvocationError};
use crate::invoke::{function_container, Invocation, InvocationView};
use crate::text::same_text;
use crate::v1_37::{create_request, Api};
use vstd::prelude::*;

verus! {

/// Entry `i` is the first one named `name`.
pub open spec fn is_first_named(
    functions: Seq<(String, FunctionData)>,
    name: Seq<char>,
    i: int,
) -> bool {
    &&& 0 <= i < functions.len()
    &&& functions[i].0@ == name
    &&& forall|j: int| 0 <= j < i ==> functions[j].0@ != name
}

/// The configured function of that name: the first, where several entries
/// carry the name. An unknown name has none, and is turned away before
/// anything is invoked.
pub fn find_function<'a>(functions: &'a Vec<(String, FunctionData)>, name: &str) -> (r: Option<
    &'a FunctionData,
>)
    ensures
        r matches Some(f) ==> exists|i: int|
            is_first_named(functions@, name@, i) && *f == functions@[i].1,
        r is None ==> forall|i: int| 0 <= i < functions@.len() ==> functions@[i].0@ != name@,
{
    let mut i: usize = 0;
    while i < functions.len()
        invariant
            i <= functions.len(),
            forall|j: int| 0 <= j < i ==> functions@[j].0@ != name@,
        decreases functions.len() - i,
    {
        if same_text(functions[i].0.as_str(), name) {
            assert(is_first_named(functions@, name@, i as int));
            return Some(&functions[i].1);
        }
        i = i + 1;
    }
    None
}

/// The input of a call: an empty body is no input.
pub fn input_of(body: Vec<u8>) -> (input: Option<Vec<u8>>)
    ensures
        body@.len() == 0 ==> input is None,
        body@.len() > 0 ==> input == Some(body),
{
    if body.len() == 0 {
        None
    } else {
        Some(body)
    }
}

/// Begins the call of the function `name` with the body of the call as
/// its input: the invocation and its first request, or `None` where no
/// function has that name.
pub fn begin_call(
    api: &Api,
    functions: &Vec<(String, FunctionData)>,
    name: &str,
    body: Vec<u8>,
) -> (r: Option<(Invocation, EngineRequest)>)
    ensures
        r is None <==> forall|i: int| 0 <= i < functions@.len() ==> functions@[i].0@ != name@,
        r matches Some(start) ==> exists|i: int|
            {
                &&& is_first_named(functions@, name@, i)
                &&& start.0@ == (InvocationView::Creating { api: api@, input: body@ })
                &&& start.1@ == create_request(api@, function_container(functions@[i].1@))
            },
{
    match find_function(functions, name) {
        Some(function) => {
            let ghost bytes = body@;
            let start = Invocation::begin(api, function.image.clone(), input_of(body));
            proof {
                let i = choose|i: int|
                    is_first_named(functions@, name@, i) && *function == functions@[i].1;
                assert(start.0@ == (InvocationView::Creating { api: api@, input: bytes })) by {
                    if bytes.len() == 0 {
                        assert(bytes =~= Seq::<u8>::empty());
                    }
                }
                assert(is_first_named(functions@, name@, i));
            }
            Some(start)
        },
        None => None,
    }
}

/// The HTTP answer to a call.
#[derive(Debug, Clone, PartialEq, Eq)]
pub struct HttpReply {
    pub status: u16,
    pub body: String,
}

/// The HTTP answer to a call as sequences.
pub struct HttpReplyView {
    pub status: u16,
    pub body: Seq<char>,
}

impl View for HttpReply {
    type V = HttpReplyView;

    open spec fn view(&self) -> HttpReplyView {
        HttpReplyView { status: self.status, body: self.body@ }
    }
}

/// The answer to a call: the output with status 200, or the failure in
/// words with status 500.
pub open spec fn answer(outcome: Result<Seq<char>, crate::error::InvocationErrorView>) -> HttpReplyView {
    match outcome {
        Ok(output) => HttpReplyView { status: 200, body: output },
        Err(e) => HttpReplyView { status: 500, body: invocation_error_text(e) },
    }
}

/// Turns the outcome of an invocation into the HTTP answer.
pub fn respond(outcome: Result<String, InvocationError>) -> (reply: HttpReply)
    ensures
        reply@ == answer(
            match outcome {
                Ok(output) => Ok(output@),
                Err(e) => Err(e@),
            },
        ),
{
    match outcome {
        Ok(output) => HttpReply { status: 200, body: output },
        Err(e) => HttpReply { status: 500, body: e.describe() },
    }
}

} // verus!
