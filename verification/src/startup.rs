//! The pulls before the first invocation: the image of every configured
//! function is pulled, in the order of the configuration, and the first
//! pull that fails ends the start-up.

use crate::config::FunctionData;
use crate::engine::{check_reply, checked, confirms, refusal, EngineRequest, Reply, ReplyView, RequestView};
use crate::error::{EngineOp, Failure, FailureView, StartupError, StartupErrorView};
use crate::v1_37::{pull_image, Api, ApiView, Images};
use vstd::prelude::*;

verus! {

/// A start-up under way: the pull of one function's image was requested.
#[derive(Debug, PartialEq, Eq)]
pub struct Startup {
    images: Images,
    functions: Vec<(String, FunctionData)>,
    pending: usize,
}

/// A start-up under way: the functions by name and image, and the place
/// of the one whose pull was requested.
pub struct StartupView {
    pub api: ApiView,
    pub functions: Seq<(Seq<char>, Seq<char>)>,
    pub pending: int,
}

/// Names and images of the functions as sequences of characters.
pub open spec fn functions_view(functions: Seq<(String, FunctionData)>) -> Seq<
    (Seq<char>, Seq<char>),
> {
    Seq::new(functions.len(), |i: int| (functions[i].0@, functions[i].1@))
}

impl View for Startup {
    type V = StartupView;

    closed spec fn view(&self) -> StartupView {
        StartupView {
            api: self.images@,
            functions: functions_view(self.functions@),
            pending: self.pending as int,
        }
    }
}

/// What a start-up does next.
#[derive(Debug, PartialEq, Eq)]
pub enum Pulling {
    /// Send `request` and hand its reply to `state`.
    Continue { state: Startup, request: EngineRequest },
    /// The start-up is over: every image was pulled, or one pull failed.
    Finished { outcome: Result<(), StartupError> },
}

/// What a start-up does next, as sequences.
pub enum PullingView {
    Continue { state: StartupView, request: RequestView },
    Finished { outcome: Result<(), StartupErrorView> },
}

impl View for Pulling {
    type V = PullingView;

    open spec fn view(&self) -> PullingView {
        match self {
            Pulling::Continue { state, request } => PullingView::Continue {
                state: state@,
                request: request@,
            },
            Pulling::Finished { outcome } => PullingView::Finished {
                outcome: match outcome {
                    Ok(_) => Ok(()),
                    Err(e) => Err(e@),
                },
            },
        }
    }
}

/// The pull of the image of function `i`, and of those after it: the
/// request for it, or the end of the start-up where no function is left or
/// the image's reference cannot be turned into a pull.
pub open spec fn pull_from(api: ApiView, functions: Seq<(Seq<char>, Seq<char>)>, i: int) -> PullingView {
    if 0 <= i < functions.len() {
        match pull_image(api, functions[i].1) {
            Ok(request) => PullingView::Continue {
                state: StartupView { api, functions, pending: i },
                request,
            },
            Err(e) => PullingView::Finished {
                outcome: Err(StartupErrorView { function: functions[i].0, cause: e }),
            },
        }
    } else {
        PullingView::Finished { outcome: Ok(()) }
    }
}

/// The step that a start-up takes on the reply to the pending pull: the
/// next pull where the reply confirms this one, the end where it does not.
pub open spec fn startup_step(state: StartupView, reply: ReplyView) -> PullingView {
    match checked(EngineOp::Pull, reply) {
        Ok(_) => pull_from(state.api, state.functions, state.pending + 1),
        Err(e) => PullingView::Finished {
            outcome: Err(
                StartupErrorView { function: state.functions[state.pending].0, cause: e },
            ),
        },
    }
}

impl Startup {
    /// The pull of one function's image is pending.
    #[verifier::type_invariant]
    closed spec fn well_formed(&self) -> bool {
        self.pending < self.functions@.len()
    }

    /// Requests the pull of function `i`, or ends the start-up.
    fn pull(images: Images, functions: Vec<(String, FunctionData)>, i: usize) -> (next: Pulling)
        ensures
            next@ == pull_from(images@, functions_view(functions@), i as int),
    {
        if i < functions.len() {
            match images.pull(functions[i].1.image.clone()) {
                Ok(request) => Pulling::Continue {
                    state: Startup { images, functions, pending: i },
                    request,
                },
                Err(e) => Pulling::Finished {
                    outcome: Err(StartupError { function: functions[i].0.clone(), cause: e }),
                },
            }
        } else {
            Pulling::Finished { outcome: Ok(()) }
        }
    }

    /// Begins the start-up: the pull of the first function's image.
    pub fn begin(api: &Api, functions: Vec<(String, FunctionData)>) -> (next: Pulling)
        ensures
            next@ == pull_from(api@, functions_view(functions@), 0),
    {
        Startup::pull(api.images(), functions, 0)
    }

    /// Takes the step that the reply to the pending pull asks for.
    pub fn advance(self, reply: Reply) -> (next: Pulling)
        ensures
            next@ == startup_step(self@, reply@),
    {
        proof {
            use_type_invariant(&self);
        }
        assert(self.pending < self.functions.len());
        match check_reply(EngineOp::Pull, reply) {
            Ok(_) => Startup::pull(self.images, self.functions, self.pending + 1),
            Err(e) => Pulling::Finished {
                outcome: Err(
                    StartupError { function: self.functions[self.pending].0.clone(), cause: e },
                ),
            },
        }
    }
}

/// How a start-up ends while it is fed `replies` in order, or `None` where
/// the replies run out before it ends.
pub open spec fn startup_ending(next: PullingView, replies: Seq<ReplyView>) -> Option<
    Result<(), StartupErrorView>,
>
    decreases replies.len(),
{
    match next {
        PullingView::Finished { outcome } => Some(outcome),
        PullingView::Continue { state, request } => if replies.len() == 0 {
            None
        } else {
            startup_ending(startup_step(state, replies[0]), replies.skip(1))
        },
    }
}

/// The requests that a start-up sends while it is fed `replies` in order.
pub open spec fn startup_sent(next: PullingView, replies: Seq<ReplyView>) -> Seq<RequestView>
    decreases replies.len(),
{
    match next {
        PullingView::Finished { outcome } => Seq::empty(),
        PullingView::Continue { state, request } => if replies.len() == 0 {
            seq![request]
        } else {
            seq![request] + startup_sent(startup_step(state, replies[0]), replies.skip(1))
        },
    }
}

/// A start-up succeeds only where the image of every function was pulled:
/// each reference gave a pull request, each request was sent, in the order
/// of the functions, and each reply confirmed its pull.
pub proof fn lemma_startup_pulls_every_image(
    api: ApiView,
    functions: Seq<(Seq<char>, Seq<char>)>,
    i: int,
    replies: Seq<ReplyView>,
)
    requires
        0 <= i <= functions.len(),
        startup_ending(pull_from(api, functions, i), replies) == Some(
            Ok::<(), StartupErrorView>(()),
        ),
    ensures
        replies.len() >= functions.len() - i,
        startup_sent(pull_from(api, functions, i), replies).len() == functions.len() - i,
        forall|k: int|
            i <= k < functions.len() ==> {
                &&& #[trigger] pull_image(api, functions[k].1) == Ok::<RequestView, FailureView>(
                    startup_sent(pull_from(api, functions, i), replies)[k - i],
                )
                &&& confirms(EngineOp::Pull, replies[k - i])
            },
    decreases functions.len() - i,
{
    if i < functions.len() {
        match pull_image(api, functions[i].1) {
            Ok(request) => {
                let state = StartupView { api, functions, pending: i };
                assert(replies.len() > 0);
                assert(startup_ending(pull_from(api, functions, i), replies) == startup_ending(
                    startup_step(state, replies[0]),
                    replies.skip(1),
                ));
                assert(confirms(EngineOp::Pull, replies[0]));
                assert(startup_step(state, replies[0]) == pull_from(api, functions, i + 1));
                lemma_startup_pulls_every_image(api, functions, i + 1, replies.skip(1));
                let rest = startup_sent(pull_from(api, functions, i + 1), replies.skip(1));
                assert(startup_sent(pull_from(api, functions, i), replies) =~= seq![request] + rest);
                assert forall|k: int| i <= k < functions.len() implies {
                    &&& #[trigger] pull_image(api, functions[k].1) == Ok::<
                        RequestView,
                        FailureView,
                    >(startup_sent(pull_from(api, functions, i), replies)[k - i])
                    &&& confirms(EngineOp::Pull, replies[k - i])
                } by {
                    if k > i {
                        assert(replies.skip(1)[k - (i + 1)] == replies[k - i]);
                        assert(rest[k - (i + 1)] == (seq![request] + rest)[k - i]);
                    }
                }
            },
            Err(e) => {},
        }
    }
}

/// The first pull that fails ends the start-up: it reports the function
/// and the failure, and nothing is sent after it.
pub proof fn lemma_startup_fails_fast(state: StartupView, reply: ReplyView, later: Seq<ReplyView>)
    requires
        0 <= state.pending < state.functions.len(),
        !confirms(EngineOp::Pull, reply),
    ensures
        startup_step(state, reply) == (PullingView::Finished {
            outcome: Err(
                StartupErrorView {
                    function: state.functions[state.pending].0,
                    cause: refusal(EngineOp::Pull, reply),
                },
            ),
        }),
        startup_sent(startup_step(state, reply), later) == Seq::<RequestView>::empty(),
{
}

} // verus!
