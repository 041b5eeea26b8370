//! One invocation of a function: a container is created, started, fed its
//! input, waited for, read and deleted, in that order.
//!
//! The library decides; the caller sends each request and hands the reply
//! back. Once the container exists, no failure ends the invocation before
//! its deletion was requested. The invocation reports the first failure; a
//! failure of the deletion that followed it is reported beside it.

use crate::codec::{json_member, json_text_member};
use crate::engine::{
    check_reply, checked, confirms, refusal, reply_body, EngineRequest, Reply, ReplyView,
    RequestView,
};
use crate::error::{EngineOp, Failure, FailureView, InvocationError, InvocationErrorView};
use crate::v1_37::{
    create_request, created, delete_request, logs_request, start_request, stdin_request,
    wait_request, Api, ApiView, Container, ContainerCreateArgs, ContainerCreateArgsView,
    ContainerCreateResponse, ContainerView, Containers,
};
use vstd::prelude::*;

verus! {

/// An invocation under way, by the reply that it waits for.
#[derive(Debug, PartialEq, Eq)]
pub enum Invocation {
    /// The creation of the container was requested.
    Creating { containers: Containers, input: Vec<u8> },
    /// The start of the container was requested.
    Starting { container: Container, input: Vec<u8> },
    /// The input is being written to the container.
    Writing { container: Container },
    /// The container runs.
    Waiting { container: Container },
    /// The output of the container was asked for.
    Reading { container: Container },
    /// The deletion of the container was requested, after the output was
    /// read or a step had failed.
    Deleting { outcome: Result<String, Failure> },
}

/// An invocation under way, as sequences.
pub enum InvocationView {
    Creating { api: ApiView, input: Seq<u8> },
    Starting { container: ContainerView, input: Seq<u8> },
    Writing { container: ContainerView },
    Waiting { container: ContainerView },
    Reading { container: ContainerView },
    Deleting { outcome: Result<Seq<char>, FailureView> },
}

impl View for Invocation {
    type V = InvocationView;

    open spec fn view(&self) -> InvocationView {
        match self {
            Invocation::Creating { containers, input } => InvocationView::Creating {
                api: containers@,
                input: input@,
            },
            Invocation::Starting { container, input } => InvocationView::Starting {
                container: container@,
                input: input@,
            },
            Invocation::Writing { container } => InvocationView::Writing { container: container@ },
            Invocation::Waiting { container } => InvocationView::Waiting { container: container@ },
            Invocation::Reading { container } => InvocationView::Reading { container: container@ },
            Invocation::Deleting { outcome } => InvocationView::Deleting {
                outcome: match outcome {
                    Ok(logs) => Ok(logs@),
                    Err(e) => Err(e@),
                },
            },
        }
    }
}

/// What an invocation does next.
#[derive(Debug, PartialEq, Eq)]
pub enum Progress {
    /// Send `request` and hand its reply to `state`.
    Continue { state: Invocation, request: EngineRequest },
    /// The invocation is over: the output of the function, or how it
    /// failed.
    Finished { outcome: Result<String, InvocationError> },
}

/// What an invocation does next, as sequences.
pub enum ProgressView {
    Continue { state: InvocationView, request: RequestView },
    Finished { outcome: Result<Seq<char>, InvocationErrorView> },
}

impl View for Progress {
    type V = ProgressView;

    open spec fn view(&self) -> ProgressView {
        match self {
            Progress::Continue { state, request } => ProgressView::Continue {
                state: state@,
                request: request@,
            },
            Progress::Finished { outcome } => ProgressView::Finished {
                outcome: match outcome {
                    Ok(logs) => Ok(logs@),
                    Err(e) => Err(e@),
                },
            },
        }
    }
}

/// What the container of a function is made from: its image, with the
/// input stream attached and open.
pub open spec fn function_container(image: Seq<char>) -> ContainerCreateArgsView {
    ContainerCreateArgsView {
        image,
        cmd: None,
        attach_stdin: true,
        open_stdin: true,
        tty: true,
    }
}

/// The input of an invocation: no input is empty input.
pub open spec fn input_bytes(input: Option<Seq<u8>>) -> Seq<u8> {
    match input {
        Some(bytes) => bytes,
        None => Seq::empty(),
    }
}

/// The deletion of `container`, with the outcome of the invocation so far.
pub open spec fn deletion(container: ContainerView, outcome: Result<Seq<char>, FailureView>) -> ProgressView {
    ProgressView::Continue {
        state: InvocationView::Deleting { outcome },
        request: delete_request(container),
    }
}

/// How an invocation ends, given the outcome before the deletion and what
/// the reply to the deletion means. The first failure is the cause; a
/// deletion that fails after it is reported as failed clean-up.
pub open spec fn conclusion(
    outcome: Result<Seq<char>, FailureView>,
    deleted: Result<Seq<char>, FailureView>,
) -> Result<Seq<char>, InvocationErrorView> {
    match outcome {
        Ok(logs) => match deleted {
            Ok(_) => Ok(logs),
            Err(d) => Err(InvocationErrorView { cause: d, cleanup: None }),
        },
        Err(e) => match deleted {
            Ok(_) => Err(InvocationErrorView { cause: e, cleanup: None }),
            Err(d) => Err(InvocationErrorView { cause: e, cleanup: Some(d) }),
        },
    }
}

/// The step that an invocation takes on a reply. `id` is the `Id` that the
/// JSON parser read from the reply's body; only the reply to the creation
/// is read for it.
pub open spec fn step(state: InvocationView, reply: ReplyView, id: Option<Seq<char>>) -> ProgressView {
    match state {
        InvocationView::Creating { api, input } => match created(api, reply, id) {
            Ok(container) => ProgressView::Continue {
                state: InvocationView::Starting { container, input },
                request: start_request(container),
            },
            Err(e) => ProgressView::Finished {
                outcome: Err(InvocationErrorView { cause: e, cleanup: None }),
            },
        },
        InvocationView::Starting { container, input } => match checked(EngineOp::Start, reply) {
            Ok(_) => if input.len() > 0 {
                ProgressView::Continue {
                    state: InvocationView::Writing { container },
                    request: stdin_request(container, input),
                }
            } else {
                ProgressView::Continue {
                    state: InvocationView::Waiting { container },
                    request: wait_request(container),
                }
            },
            Err(e) => deletion(container, Err(e)),
        },
        InvocationView::Writing { container } => match checked(EngineOp::Stdin, reply) {
            Ok(_) => ProgressView::Continue {
                state: InvocationView::Waiting { container },
                request: wait_request(container),
            },
            Err(e) => deletion(container, Err(e)),
        },
        InvocationView::Waiting { container } => match checked(EngineOp::Wait, reply) {
            Ok(_) => ProgressView::Continue {
                state: InvocationView::Reading { container },
                request: logs_request(container),
            },
            Err(e) => deletion(container, Err(e)),
        },
        InvocationView::Reading { container } => deletion(
            container,
            checked(EngineOp::Logs, reply),
        ),
        InvocationView::Deleting { outcome } => ProgressView::Finished {
            outcome: conclusion(outcome, checked(EngineOp::Delete, reply)),
        },
    }
}

impl Invocation {
    /// Begins the invocation of the function with image `image`: the
    /// request that creates its container, and the state that waits for
    /// the reply.
    pub fn begin(api: &Api, image: String, input: Option<Vec<u8>>) -> (start: (
        Invocation,
        EngineRequest,
    ))
        ensures
            start.0@ == (InvocationView::Creating {
                api: api@,
                input: input_bytes(
                    match input {
                        Some(bytes) => Some(bytes@),
                        None => None,
                    },
                ),
            }),
            start.1@ == create_request(api@, function_container(image@)),
    {
        let containers = api.containers();
        let args = ContainerCreateArgs {
            Image: image,
            Cmd: None,
            AttachStdin: true,
            OpenStdin: true,
            Tty: true,
        };
        let request = containers.create(&args);
        let input = match input {
            Some(bytes) => bytes,
            None => Vec::new(),
        };
        (Invocation::Creating { containers, input }, request)
    }

    /// The request that deletes `container`, and the state that waits for
    /// the reply with the outcome so far.
    fn delete(container: Container, outcome: Result<String, Failure>) -> (next: Progress)
        ensures
            next@ == deletion(
                container@,
                match outcome {
                    Ok(logs) => Ok(logs@),
                    Err(e) => Err(e@),
                },
            ),
    {
        let request = container.delete();
        Progress::Continue { state: Invocation::Deleting { outcome }, request }
    }

    /// Takes the step that `reply` asks for, given what was parsed from
    /// the reply's body.
    pub fn advance_with(self, reply: Reply, parsed: Option<ContainerCreateResponse>) -> (next:
        Progress)
        ensures
            next@ == step(
                self@,
                reply@,
                match parsed {
                    Some(response) => Some(response.Id@),
                    None => None,
                },
            ),
    {
        match self {
            Invocation::Creating { containers, input } => {
                match containers.created(reply, parsed) {
                    Ok(container) => {
                        let request = container.start();
                        Progress::Continue {
                            state: Invocation::Starting { container, input },
                            request,
                        }
                    },
                    Err(e) => Progress::Finished {
                        outcome: Err(InvocationError { cause: e, cleanup: None }),
                    },
                }
            },
            Invocation::Starting { container, input } => {
                match check_reply(EngineOp::Start, reply) {
                    Ok(_) => {
                        if input.len() > 0 {
                            let request = container.send_to_stdin(input);
                            Progress::Continue { state: Invocation::Writing { container }, request }
                        } else {
                            let request = container.wait();
                            Progress::Continue { state: Invocation::Waiting { container }, request }
                        }
                    },
                    Err(e) => Invocation::delete(container, Err(e)),
                }
            },
            Invocation::Writing { container } => {
                match check_reply(EngineOp::Stdin, reply) {
                    Ok(_) => {
                        let request = container.wait();
                        Progress::Continue { state: Invocation::Waiting { container }, request }
                    },
                    Err(e) => Invocation::delete(container, Err(e)),
                }
            },
            Invocation::Waiting { container } => {
                match check_reply(EngineOp::Wait, reply) {
                    Ok(_) => {
                        let request = container.logs();
                        Progress::Continue { state: Invocation::Reading { container }, request }
                    },
                    Err(e) => Invocation::delete(container, Err(e)),
                }
            },
            Invocation::Reading { container } => {
                let outcome = check_reply(EngineOp::Logs, reply);
                Invocation::delete(container, outcome)
            },
            Invocation::Deleting { outcome } => {
                let deleted = check_reply(EngineOp::Delete, reply);
                let outcome = match outcome {
                    Ok(logs) => match deleted {
                        Ok(_) => Ok(logs),
                        Err(d) => Err(InvocationError { cause: d, cleanup: None }),
                    },
                    Err(e) => match deleted {
                        Ok(_) => Err(InvocationError { cause: e, cleanup: None }),
                        Err(d) => Err(InvocationError { cause: e, cleanup: Some(d) }),
                    },
                };
                Progress::Finished { outcome }
            },
        }
    }

    /// Takes the step that `reply` asks for. The reply to the creation is
    /// parsed as JSON for the `Id` of the new container.
    pub fn advance(self, reply: Reply) -> (next: Progress)
        ensures
            next@ == step(self@, reply@, json_text_member(reply_body(reply@), "Id"@)),
    {
        let parsed = match (&self, &reply) {
            (Invocation::Creating { containers, input }, Reply::Response { status, body }) => {
                match json_member(body.as_str(), "Id") {
                    Some(id) => Some(ContainerCreateResponse { Id: id }),
                    None => None,
                }
            },
            _ => None,
        };
        self.advance_with(reply, parsed)
    }
}

/// One reply as an invocation meets it: with the `Id` that the JSON parser
/// read from its body.
pub struct Event {
    pub reply: ReplyView,
    pub id: Option<Seq<char>>,
}

/// The container that an invocation holds and has not yet asked to delete.
pub open spec fn held(state: InvocationView) -> Option<ContainerView> {
    match state {
        InvocationView::Creating { api, input } => None,
        InvocationView::Starting { container, input } => Some(container),
        InvocationView::Writing { container } => Some(container),
        InvocationView::Waiting { container } => Some(container),
        InvocationView::Reading { container } => Some(container),
        InvocationView::Deleting { outcome } => None,
    }
}

/// The operation whose reply an invocation waits for.
pub open spec fn awaited(state: InvocationView) -> EngineOp {
    match state {
        InvocationView::Creating { api, input } => EngineOp::Create,
        InvocationView::Starting { container, input } => EngineOp::Start,
        InvocationView::Writing { container } => EngineOp::Stdin,
        InvocationView::Waiting { container } => EngineOp::Wait,
        InvocationView::Reading { container } => EngineOp::Logs,
        InvocationView::Deleting { outcome } => EngineOp::Delete,
    }
}

/// The requests that an invocation sends while it is fed `events` in
/// order, up to its end or the end of the events.
pub open spec fn sent(state: InvocationView, events: Seq<Event>) -> Seq<RequestView>
    decreases events.len(),
{
    if events.len() == 0 {
        Seq::empty()
    } else {
        match step(state, events[0].reply, events[0].id) {
            ProgressView::Continue { state: next, request } => seq![request] + sent(
                next,
                events.skip(1),
            ),
            ProgressView::Finished { outcome } => Seq::empty(),
        }
    }
}

/// How an invocation ends while it is fed `events` in order, or `None`
/// where the events run out before it ends.
pub open spec fn ending(state: InvocationView, events: Seq<Event>) -> Option<
    Result<Seq<char>, InvocationErrorView>,
>
    decreases events.len(),
{
    if events.len() == 0 {
        None
    } else {
        match step(state, events[0].reply, events[0].id) {
            ProgressView::Continue { state: next, request } => ending(next, events.skip(1)),
            ProgressView::Finished { outcome } => Some(outcome),
        }
    }
}

/// The place of an operation in the lifecycle.
pub open spec fn rank(op: EngineOp) -> int {
    match op {
        EngineOp::Pull => 0,
        EngineOp::Create => 1,
        EngineOp::Start => 2,
        EngineOp::Stdin => 3,
        EngineOp::Wait => 4,
        EngineOp::Logs => 5,
        EngineOp::Delete => 6,
    }
}

/// Every request of an invocation is for a later operation than the one
/// whose reply the invocation waits for.
pub proof fn lemma_requests_move_forward(state: InvocationView, events: Seq<Event>, i: int)
    requires
        0 <= i < sent(state, events).len(),
    ensures
        rank(awaited(state)) < rank(sent(state, events)[i].op),
    decreases events.len(),
{
    match step(state, events[0].reply, events[0].id) {
        ProgressView::Continue { state: next, request } => {
            assert(request.op == awaited(next));
            assert(rank(awaited(state)) < rank(awaited(next)));
            if i > 0 {
                lemma_requests_move_forward(next, events.skip(1), i - 1);
            }
        },
        ProgressView::Finished { outcome } => {},
    }
}

/// The requests of an invocation follow the lifecycle: each is for a later
/// operation than the one before it. So the invocation never goes back,
/// and asks for no operation twice.
pub proof fn lemma_requests_follow_lifecycle(
    state: InvocationView,
    events: Seq<Event>,
    i: int,
    j: int,
)
    requires
        0 <= i < j < sent(state, events).len(),
    ensures
        rank(sent(state, events)[i].op) < rank(sent(state, events)[j].op),
    decreases events.len(),
{
    match step(state, events[0].reply, events[0].id) {
        ProgressView::Continue { state: next, request } => {
            assert(request.op == awaited(next));
            if i == 0 {
                lemma_requests_move_forward(next, events.skip(1), j - 1);
            } else {
                lemma_requests_follow_lifecycle(next, events.skip(1), i - 1, j - 1);
            }
        },
        ProgressView::Finished { outcome } => {},
    }
}

/// An invocation that holds a container does not end before it has asked
/// the engine to delete that container: whatever the replies, where the
/// invocation ends, its last request was the deletion.
pub proof fn lemma_container_is_deleted(
    state: InvocationView,
    events: Seq<Event>,
    container: ContainerView,
)
    requires
        held(state) == Some(container),
        ending(state, events) is Some,
    ensures
        sent(state, events).len() > 0,
        sent(state, events).last() == delete_request(container),
    decreases events.len(),
{
    let rest = events.skip(1);
    match step(state, events[0].reply, events[0].id) {
        ProgressView::Continue { state: next, request } => {
            if held(next) == Some(container) {
                lemma_container_is_deleted(next, rest, container);
            } else {
                assert(next is Deleting);
                assert(request == delete_request(container));
                assert(ending(state, events) == ending(next, rest));
                assert(rest.len() > 0);
                assert(sent(next, rest) =~= Seq::<RequestView>::empty());
                assert(sent(state, events) =~= seq![request]);
            }
        },
        ProgressView::Finished { outcome } => {},
    }
}

/// An invocation ends without a deletion only where the creation failed:
/// then it has sent nothing more and reports that failure. Where the
/// creation gave a container, the last request is its deletion.
pub proof fn lemma_created_is_deleted(api: ApiView, input: Seq<u8>, events: Seq<Event>)
    requires
        ending(InvocationView::Creating { api, input }, events) is Some,
    ensures
        match created(api, events[0].reply, events[0].id) {
            Ok(container) => {
                &&& sent(InvocationView::Creating { api, input }, events).len() >= 2
                &&& sent(InvocationView::Creating { api, input }, events)[0] == start_request(
                    container,
                )
                &&& sent(InvocationView::Creating { api, input }, events).last() == delete_request(
                    container,
                )
            },
            Err(e) => {
                &&& sent(InvocationView::Creating { api, input }, events).len() == 0
                &&& ending(InvocationView::Creating { api, input }, events) == Some(
                    Err::<Seq<char>, InvocationErrorView>(
                        InvocationErrorView { cause: e, cleanup: None },
                    ),
                )
            },
        },
{
    match created(api, events[0].reply, events[0].id) {
        Ok(container) => {
            lemma_container_is_deleted(
                InvocationView::Starting { container, input },
                events.skip(1),
                container,
            );
        },
        Err(e) => {},
    }
}

/// Where every reply confirms its operation and there is no input, the
/// invocation sends start, wait, logs and delete for the container that
/// was created, in that order and nothing else, and ends with the body of
/// the reply to the logs request.
pub proof fn lemma_uneventful_invocation(api: ApiView, events: Seq<Event>, id: Seq<char>)
    requires
        events.len() == 5,
        confirms(EngineOp::Create, events[0].reply),
        events[0].id == Some(id),
        confirms(EngineOp::Start, events[1].reply),
        confirms(EngineOp::Wait, events[2].reply),
        confirms(EngineOp::Logs, events[3].reply),
        confirms(EngineOp::Delete, events[4].reply),
    ensures
        sent(InvocationView::Creating { api, input: Seq::empty() }, events) == seq![
            start_request(ContainerView { id, api }),
            wait_request(ContainerView { id, api }),
            logs_request(ContainerView { id, api }),
            delete_request(ContainerView { id, api }),
        ],
        ending(InvocationView::Creating { api, input: Seq::empty() }, events) == Some(
            Ok::<Seq<char>, InvocationErrorView>(reply_body(events[3].reply)),
        ),
{
    let container = ContainerView { id, api };
    let e1 = events.skip(1);
    let e2 = e1.skip(1);
    let e3 = e2.skip(1);
    let e4 = e3.skip(1);
    let e5 = e4.skip(1);
    assert(e1[0] == events[1] && e2[0] == events[2] && e3[0] == events[3] && e4[0] == events[4]);
    assert(e5.len() == 0);
    let s0 = InvocationView::Creating { api, input: Seq::<u8>::empty() };
    let s1 = InvocationView::Starting { container, input: Seq::<u8>::empty() };
    let s2 = InvocationView::Waiting { container };
    let s3 = InvocationView::Reading { container };
    let s4 = InvocationView::Deleting {
        outcome: Ok::<Seq<char>, FailureView>(reply_body(events[3].reply)),
    };
    assert(sent(s4, e4) =~= Seq::<RequestView>::empty());
    assert(sent(s3, e3) =~= seq![delete_request(container)]);
    assert(sent(s2, e2) =~= seq![logs_request(container), delete_request(container)]);
    assert(sent(s1, e1) =~= seq![
        wait_request(container),
        logs_request(container),
        delete_request(container),
    ]);
    assert(sent(s0, events) =~= seq![
        start_request(container),
        wait_request(container),
        logs_request(container),
        delete_request(container),
    ]);
    assert(ending(s4, e4) == Some(
        Ok::<Seq<char>, InvocationErrorView>(reply_body(events[3].reply)),
    ));
    assert(ending(s3, e3) == ending(s4, e4));
    assert(ending(s2, e2) == ending(s3, e3));
    assert(ending(s1, e1) == ending(s2, e2));
    assert(ending(s0, events) == ending(s1, e1));
}

/// Where a step on a held container fails, the next request deletes the
/// container, and the invocation then ends with that failure as its cause,
/// whatever the reply to the deletion; a deletion that fails too is
/// reported as failed clean-up.
pub proof fn lemma_failure_deletes_and_reports(
    state: InvocationView,
    container: ContainerView,
    failed: Event,
    deleted: Event,
)
    requires
        held(state) == Some(container),
        !confirms(awaited(state), failed.reply),
    ensures
        sent(state, seq![failed, deleted]) == seq![delete_request(container)],
        ending(state, seq![failed, deleted]) == Some(
            Err::<Seq<char>, InvocationErrorView>(
                InvocationErrorView {
                    cause: refusal(awaited(state), failed.reply),
                    cleanup: if confirms(EngineOp::Delete, deleted.reply) {
                        None
                    } else {
                        Some(refusal(EngineOp::Delete, deleted.reply))
                    },
                },
            ),
        ),
{
    let events = seq![failed, deleted];
    let rest = events.skip(1);
    assert(rest[0] == deleted);
    assert(rest.skip(1).len() == 0);
    let next = InvocationView::Deleting {
        outcome: Err::<Seq<char>, FailureView>(refusal(awaited(state), failed.reply)),
    };
    assert(step(state, failed.reply, failed.id) == deletion(
        container,
        Err::<Seq<char>, FailureView>(refusal(awaited(state), failed.reply)),
    ));
    assert(sent(next, rest) =~= Seq::<RequestView>::empty());
    assert(sent(state, events) =~= seq![delete_request(container)]);
    assert(ending(state, events) == ending(next, rest));
}

} // verus!
