use simple_faas_docker::auth::DockerConfig;
use simple_faas_docker::client::Client;
use simple_faas_docker::engine::{Body, EngineRequest, Method, Reply};
use simple_faas_docker::error::{EngineOp, Failure, InvocationError};
use simple_faas_docker::invoke::{Invocation, Progress};
use simple_faas_docker::v1_37::{Api, ContainerCreateResponse};

const HOST: &str = "http://engine";
const ID: &str = "c0ffee";

fn api() -> Api {
    Api::new(Client::new(HOST.into()), DockerConfig::new())
}

/// An engine that confirms every operation but those in `failing`, which
/// it answers with status 500.
fn stub(request: &EngineRequest, logs: &str, failing: &[EngineOp]) -> Reply {
    if failing.contains(&request.op) {
        return match request.op {
            EngineOp::Stdin => Reply::Unreachable { message: "broken pipe".into() },
            _ => Reply::Response { status: 500, body: "boom".into() },
        };
    }
    match request.op {
        EngineOp::Pull => Reply::Response { status: 200, body: String::new() },
        EngineOp::Create => Reply::Response { status: 201, body: format!("{{\"Id\":\"{}\"}}", ID) },
        EngineOp::Start => Reply::Response { status: 204, body: String::new() },
        EngineOp::Stdin => Reply::Written,
        EngineOp::Wait => Reply::Response { status: 200, body: "{\"StatusCode\":0}".into() },
        EngineOp::Logs => Reply::Response { status: 200, body: logs.into() },
        EngineOp::Delete => Reply::Response { status: 204, body: String::new() },
    }
}

/// Runs one invocation against the stub: the requests that were sent and
/// how it ended.
fn invoke(
    image: &str,
    input: Option<Vec<u8>>,
    logs: &str,
    failing: &[EngineOp],
) -> (Vec<EngineRequest>, Result<String, InvocationError>) {
    let (mut state, mut request) = Invocation::begin(&api(), image.into(), input);
    let mut sent = Vec::new();
    for _ in 0..10 {
        let reply = stub(&request, logs, failing);
        sent.push(request);
        match state.advance(reply) {
            Progress::Continue { state: next, request: following } => {
                state = next;
                request = following;
            }
            Progress::Finished { outcome } => return (sent, outcome),
        }
    }
    panic!("the invocation did not end");
}

fn ops(sent: &[EngineRequest]) -> Vec<EngineOp> {
    sent.iter().map(|request| request.op).collect()
}

fn boom(op: EngineOp) -> Failure {
    Failure::Engine { op, status: Some(500), body: "boom".into() }
}

#[test]
fn echo_without_input_runs_the_whole_lifecycle() {
    let (sent, outcome) = invoke("hello-world", None, "Hello from Docker!", &[]);
    assert_eq!(
        ops(&sent),
        vec![EngineOp::Create, EngineOp::Start, EngineOp::Wait, EngineOp::Logs, EngineOp::Delete]
    );
    assert_eq!(outcome, Ok("Hello from Docker!".to_string()));
    assert_eq!(sent[0].url, format!("{}/containers/create", HOST));
    assert_eq!(
        sent[0].body,
        Body::Text(
            "{\"Image\":\"hello-world\",\"Cmd\":null,\"AttachStdin\":true,\"OpenStdin\":true,\"Tty\":true}"
                .into()
        )
    );
    assert_eq!(sent[1].url, format!("{}/containers/{}/start", HOST, ID));
    assert_eq!(sent[2].url, format!("{}/containers/{}/wait", HOST, ID));
    assert_eq!(sent[3].url, format!("{}/containers/{}/logs?stdout=true", HOST, ID));
    assert_eq!(sent[4].url, format!("{}/containers/{}", HOST, ID));
    assert_eq!(sent[4].method, Method::Delete);
}

#[test]
fn failed_start_still_deletes_the_container() {
    let (sent, outcome) = invoke("hello-world", None, "unused", &[EngineOp::Start]);
    assert_eq!(ops(&sent), vec![EngineOp::Create, EngineOp::Start, EngineOp::Delete]);
    assert_eq!(sent[2].url, format!("{}/containers/{}", HOST, ID));
    assert_eq!(outcome, Err(InvocationError { cause: boom(EngineOp::Start), cleanup: None }));
}

#[test]
fn input_is_written_after_the_start() {
    let (sent, outcome) = invoke("cat", Some(vec![104, 105]), "hi", &[]);
    assert_eq!(
        ops(&sent),
        vec![
            EngineOp::Create,
            EngineOp::Start,
            EngineOp::Stdin,
            EngineOp::Wait,
            EngineOp::Logs,
            EngineOp::Delete
        ]
    );
    assert_eq!(sent[2].body, Body::Bytes(vec![104, 105]));
    assert_eq!(outcome, Ok("hi".to_string()));
}

#[test]
fn empty_input_is_no_input() {
    let (sent, outcome) = invoke("cat", Some(Vec::new()), "", &[]);
    assert_eq!(
        ops(&sent),
        vec![EngineOp::Create, EngineOp::Start, EngineOp::Wait, EngineOp::Logs, EngineOp::Delete]
    );
    assert_eq!(outcome, Ok(String::new()));
}

#[test]
fn failed_creation_ends_the_invocation() {
    let (sent, outcome) = invoke("hello-world", None, "unused", &[EngineOp::Create]);
    assert_eq!(ops(&sent), vec![EngineOp::Create]);
    assert_eq!(outcome, Err(InvocationError { cause: boom(EngineOp::Create), cleanup: None }));
}

#[test]
fn failed_write_still_deletes_the_container() {
    let (sent, outcome) = invoke("cat", Some(vec![1]), "unused", &[EngineOp::Stdin]);
    assert_eq!(
        ops(&sent),
        vec![EngineOp::Create, EngineOp::Start, EngineOp::Stdin, EngineOp::Delete]
    );
    assert_eq!(
        outcome,
        Err(InvocationError {
            cause: Failure::Engine { op: EngineOp::Stdin, status: None, body: "broken pipe".into() },
            cleanup: None,
        })
    );
}

#[test]
fn failed_wait_still_deletes_the_container() {
    let (sent, outcome) = invoke("hello-world", None, "unused", &[EngineOp::Wait]);
    assert_eq!(
        ops(&sent),
        vec![EngineOp::Create, EngineOp::Start, EngineOp::Wait, EngineOp::Delete]
    );
    assert_eq!(outcome, Err(InvocationError { cause: boom(EngineOp::Wait), cleanup: None }));
}

#[test]
fn failed_logs_still_delete_the_container() {
    let (sent, outcome) = invoke("hello-world", None, "unused", &[EngineOp::Logs]);
    assert_eq!(
        ops(&sent),
        vec![EngineOp::Create, EngineOp::Start, EngineOp::Wait, EngineOp::Logs, EngineOp::Delete]
    );
    assert_eq!(outcome, Err(InvocationError { cause: boom(EngineOp::Logs), cleanup: None }));
}

#[test]
fn failed_deletion_after_success_is_the_failure() {
    let (sent, outcome) = invoke("hello-world", None, "out", &[EngineOp::Delete]);
    assert_eq!(
        ops(&sent),
        vec![EngineOp::Create, EngineOp::Start, EngineOp::Wait, EngineOp::Logs, EngineOp::Delete]
    );
    assert_eq!(outcome, Err(InvocationError { cause: boom(EngineOp::Delete), cleanup: None }));
}

#[test]
fn failed_deletion_after_a_failure_is_reported_beside_it() {
    let (sent, outcome) = invoke("hello-world", None, "out", &[EngineOp::Start, EngineOp::Delete]);
    assert_eq!(ops(&sent), vec![EngineOp::Create, EngineOp::Start, EngineOp::Delete]);
    assert_eq!(
        outcome,
        Err(InvocationError { cause: boom(EngineOp::Start), cleanup: Some(boom(EngineOp::Delete)) })
    );
}

#[test]
fn creation_without_an_id_is_malformed() {
    let (state, _) = Invocation::begin(&api(), "hello-world".into(), None);
    assert_eq!(
        state.advance(Reply::Response { status: 201, body: "{}".into() }),
        Progress::Finished {
            outcome: Err(InvocationError {
                cause: Failure::MalformedResponse { op: EngineOp::Create, body: "{}".into() },
                cleanup: None,
            }),
        }
    );
}

#[test]
fn unreachable_engine_is_a_transport_failure() {
    let (state, _) = Invocation::begin(&api(), "hello-world".into(), None);
    assert_eq!(
        state.advance(Reply::Unreachable { message: "connection refused".into() }),
        Progress::Finished {
            outcome: Err(InvocationError {
                cause: Failure::Transport { op: EngineOp::Create, message: "connection refused".into() },
                cleanup: None,
            }),
        }
    );
}

#[test]
fn advance_with_takes_the_parsed_id() {
    let (state, _) = Invocation::begin(&api(), "hello-world".into(), None);
    let next = state.advance_with(
        Reply::Response { status: 201, body: "ignored".into() },
        Some(ContainerCreateResponse { Id: "abc".into() }),
    );
    let container = api().container("abc".into());
    assert_eq!(
        next,
        Progress::Continue {
            state: Invocation::Starting { container: container.clone(), input: Vec::new() },
            request: container.start(),
        }
    );
    let waiting = Invocation::Waiting { container: container.clone() };
    assert_eq!(
        waiting.advance_with(Reply::Response { status: 200, body: String::new() }, None),
        Progress::Continue {
            state: Invocation::Reading { container: container.clone() },
            request: container.logs(),
        }
    );
    let deleting = Invocation::Deleting { outcome: Ok("out".into()) };
    assert_eq!(
        deleting.advance_with(Reply::Response { status: 204, body: String::new() }, None),
        Progress::Finished { outcome: Ok("out".into()) }
    );
}
