use simple_faas_docker::auth::DockerConfig;
use simple_faas_docker::client::Client;
use simple_faas_docker::config::FunctionData;
use simple_faas_docker::engine::{Body, Reply};
use simple_faas_docker::error::{EngineOp, Failure, InvalidReference, InvocationError, StartupError};
use simple_faas_docker::handler::{begin_call, find_function, input_of, respond, HttpReply};
use simple_faas_docker::invoke::Invocation;
use simple_faas_docker::startup::{Pulling, Startup};
use simple_faas_docker::v1_37::Api;

fn api() -> Api {
    Api::new(Client::new("http://engine".into()), DockerConfig::new())
}

/// Runs a start-up against an engine that answers the pulls with
/// `statuses`, in order: the images asked for and how it ended.
fn start_up(
    functions: Vec<(String, FunctionData)>,
    statuses: &[u16],
) -> (Vec<String>, Result<(), StartupError>) {
    let mut next = Startup::begin(&api(), functions);
    let mut pulled = Vec::new();
    for status in statuses {
        match next {
            Pulling::Continue { state, request } => {
                pulled.push(request.url);
                next = state.advance(Reply::Response { status: *status, body: "answer".into() });
            }
            Pulling::Finished { outcome } => return (pulled, outcome),
        }
    }
    match next {
        Pulling::Finished { outcome } => (pulled, outcome),
        Pulling::Continue { .. } => panic!("the start-up did not end"),
    }
}

fn pull_url(image: &str, tag: &str) -> String {
    format!("http://engine/images/create?fromImage={}&tag={}", image, tag)
}

fn functions() -> Vec<(String, FunctionData)> {
    vec![
        ("echo".to_string(), FunctionData { image: "hello-world".into() }),
        ("cat".to_string(), FunctionData { image: "user/cat:1".into() }),
        ("echo".to_string(), FunctionData { image: "shadowed".into() }),
    ]
}

#[test]
fn known_function_is_found() {
    let functions = functions();
    assert_eq!(find_function(&functions, "echo"), Some(&FunctionData { image: "hello-world".into() }));
    assert_eq!(find_function(&functions, "cat"), Some(&FunctionData { image: "user/cat:1".into() }));
}

#[test]
fn unknown_function_is_turned_away() {
    let functions = functions();
    assert_eq!(find_function(&functions, "ech"), None);
    assert_eq!(find_function(&functions, ""), None);
    assert_eq!(find_function(&Vec::new(), "echo"), None);
}

#[test]
fn empty_body_is_no_input() {
    assert_eq!(input_of(Vec::new()), None);
    assert_eq!(input_of(vec![0]), Some(vec![0]));
    assert_eq!(input_of(vec![1, 2, 3]), Some(vec![1, 2, 3]));
}

#[test]
fn output_is_answered_with_200() {
    assert_eq!(respond(Ok("Hello".into())), HttpReply { status: 200, body: "Hello".into() });
    assert_eq!(respond(Ok(String::new())), HttpReply { status: 200, body: String::new() });
}

#[test]
fn failure_is_answered_with_500_and_its_text() {
    let error = InvocationError {
        cause: Failure::Engine { op: EngineOp::Start, status: Some(500), body: "boom".into() },
        cleanup: None,
    };
    assert_eq!(
        respond(Err(error)),
        HttpReply {
            status: 500,
            body: "Failed to start container: boom (500)".into(),
        }
    );
}

#[test]
fn call_of_a_known_function_begins_with_its_creation() {
    let (state, request) = begin_call(&api(), &functions(), "cat", vec![7]).unwrap();
    assert_eq!(request.op, EngineOp::Create);
    assert_eq!(
        request.body,
        Body::Text(
            "{\"Image\":\"user/cat:1\",\"Cmd\":null,\"AttachStdin\":true,\"OpenStdin\":true,\"Tty\":true}"
                .into()
        )
    );
    assert_eq!(state, Invocation::Creating { containers: api().containers(), input: vec![7] });
    let (first, _) = begin_call(&api(), &functions(), "echo", Vec::new()).unwrap();
    assert_eq!(first, Invocation::Creating { containers: api().containers(), input: Vec::new() });
}

#[test]
fn call_of_an_unknown_function_begins_nothing() {
    assert_eq!(begin_call(&api(), &functions(), "dog", vec![7]), None);
}

#[test]
fn start_up_pulls_every_image_in_order() {
    let (pulled, outcome) = start_up(functions(), &[200, 200, 200]);
    assert_eq!(
        pulled,
        vec![
            pull_url("docker.io/library/hello-world", "latest"),
            pull_url("docker.io/user/cat", "1"),
            pull_url("docker.io/library/shadowed", "latest"),
        ]
    );
    assert_eq!(outcome, Ok(()));
}

#[test]
fn start_up_without_functions_pulls_nothing() {
    let (pulled, outcome) = start_up(Vec::new(), &[]);
    assert_eq!(pulled, Vec::<String>::new());
    assert_eq!(outcome, Ok(()));
}

#[test]
fn first_failed_pull_ends_the_start_up() {
    let (pulled, outcome) = start_up(functions(), &[200, 404, 200]);
    assert_eq!(
        pulled,
        vec![pull_url("docker.io/library/hello-world", "latest"), pull_url("docker.io/user/cat", "1")]
    );
    assert_eq!(
        outcome,
        Err(StartupError {
            function: "cat".into(),
            cause: Failure::Engine { op: EngineOp::Pull, status: Some(404), body: "answer".into() },
        })
    );
}

#[test]
fn malformed_reference_ends_the_start_up() {
    let functions = vec![
        ("good".to_string(), FunctionData { image: "hello-world".into() }),
        ("bad".to_string(), FunctionData { image: String::new() }),
        ("never".to_string(), FunctionData { image: "hello-world".into() }),
    ];
    let (pulled, outcome) = start_up(functions, &[200, 200, 200]);
    assert_eq!(pulled, vec![pull_url("docker.io/library/hello-world", "latest")]);
    assert_eq!(
        outcome,
        Err(StartupError {
            function: "bad".into(),
            cause: Failure::InvalidReference(InvalidReference::EmptyInput),
        })
    );
}

#[test]
fn pinned_image_ends_the_start_up() {
    let functions = vec![("pinned".to_string(), FunctionData { image: "app@sha256:abc".into() })];
    let (pulled, outcome) = start_up(functions, &[]);
    assert_eq!(pulled, Vec::<String>::new());
    assert_eq!(
        outcome,
        Err(StartupError { function: "pinned".into(), cause: Failure::UnsupportedConversion })
    );
}

#[test]
fn start_up_failure_is_described_in_words() {
    let error = StartupError {
        function: "cat".into(),
        cause: Failure::Engine { op: EngineOp::Pull, status: Some(404), body: "no such image".into() },
    };
    assert_eq!(
        error.describe(),
        "Failed to pull the image of cat: Failed to create image: no such image (404)"
    );
}
