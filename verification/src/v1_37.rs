//! The engine's HTTP surface, version 1.37: for each operation the request
//! to send and the meaning of the reply.

#![allow(non_snake_case)]

use crate::auth::{registry_auth_text, resolve, resolved, Credential, DockerConfig};
use crate::client::Client;
use crate::codec::{json_member, json_quote, json_quoted, json_text_member};
use crate::engine::{
    check_reply, checked, reply_body, unit_result_is, Body, BodyView, EngineRequest, Header,
    Method, Reply, ReplyView, RequestView,
};
use crate::error::{EngineOp, Failure, FailureView};
use crate::image::{normal_form, normalize_image_tag, normalized, Image, ImageView};
use crate::weburl::UrlPartsView;
use vstd::prelude::*;
use vstd::string::*;

verus! {

/// The engine and the registry credentials that its operations use.
#[derive(Debug, PartialEq, Eq)]
pub struct Api {
    client: Client,
    docker_config: DockerConfig,
}

/// The engine's base URL and the registry credentials.
pub struct ApiView {
    pub host: Seq<char>,
    pub store: Map<Seq<char>, Credential>,
}

impl View for Api {
    type V = ApiView;

    closed spec fn view(&self) -> ApiView {
        ApiView { host: self.client@, store: self.docker_config@ }
    }
}

impl Clone for Api {
    fn clone(&self) -> (copy: Api)
        ensures
            copy@ == self@,
    {
        Api { client: self.client.clone(), docker_config: self.docker_config.clone() }
    }
}

impl Api {
    /// The operations of the engine behind `client`, with the credentials
    /// of `docker_config` for its pulls.
    pub fn new(client: Client, docker_config: DockerConfig) -> (api: Api)
        ensures
            api@ == (ApiView { host: client@, store: docker_config@ }),
    {
        Api { client, docker_config }
    }

    /// The operations on images.
    pub fn images(&self) -> (images: Images)
        ensures
            images@ == self@,
    {
        Images { api: self.clone() }
    }

    /// The operations on the set of containers.
    pub fn containers(&self) -> (containers: Containers)
        ensures
            containers@ == self@,
    {
        Containers { api: self.clone() }
    }

    /// The operations on the container `id`.
    pub fn container(&self, id: String) -> (container: Container)
        ensures
            container@ == (ContainerView { id: id@, api: self@ }),
    {
        Container { id, api: self.clone() }
    }
}

/// The header that announces JSON. Every request but the fetch of the logs
/// and the write to the input stream carries it.
pub open spec fn json_header() -> (Seq<char>, Seq<char>) {
    ("Content-Type"@, "application/json"@)
}

/// The operations on images.
#[derive(Debug, Clone, PartialEq, Eq)]
pub struct Images {
    api: Api,
}

impl View for Images {
    type V = ApiView;

    closed spec fn view(&self) -> ApiView {
        self.api@
    }
}

/// What a pull asks for: the image, with its registry, and the tag.
#[derive(Debug, Clone, PartialEq, Eq)]
pub struct ImageCreateArgs {
    pub fromImage: String,
    pub tag: String,
}

/// The arguments of a pull as sequences of characters.
pub struct ImageCreateArgsView {
    pub from_image: Seq<char>,
    pub tag: Seq<char>,
}

impl View for ImageCreateArgs {
    type V = ImageCreateArgsView;

    open spec fn view(&self) -> ImageCreateArgsView {
        ImageCreateArgsView { from_image: self.fromImage@, tag: self.tag@ }
    }
}

/// The arguments of the pull of `image`: registry domain and name, joined
/// by a slash, and the tag. An image that is pinned by a digest cannot be
/// pulled this way.
pub open spec fn pull_args(image: ImageView) -> Result<ImageCreateArgsView, FailureView> {
    if image.digest is Some {
        Err(FailureView::UnsupportedConversion)
    } else {
        Ok(ImageCreateArgsView { from_image: image.domain + "/"@ + image.name, tag: image.tag })
    }
}

impl ImageCreateArgs {
    /// The arguments of the pull of an image without digest.
    pub fn from(image: Image) -> (args: ImageCreateArgs)
        requires
            image.digest is None,
        ensures
            pull_args(image@) == Ok::<ImageCreateArgsView, FailureView>(args@),
    {
        ImageCreateArgs {
            fromImage: image.domain.concat("/").concat(image.name.as_str()),
            tag: image.tag,
        }
    }

    /// The arguments of the pull of an image, or `UnsupportedConversion`
    /// where the image is pinned by a digest.
    pub fn try_from(image: Image) -> (res: Result<ImageCreateArgs, Failure>)
        ensures
            match res {
                Ok(args) => pull_args(image@) == Ok::<ImageCreateArgsView, FailureView>(args@),
                Err(e) => pull_args(image@) == Err::<ImageCreateArgsView, FailureView>(e@),
            },
    {
        if image.digest.is_some() {
            Err(Failure::UnsupportedConversion)
        } else {
            Ok(ImageCreateArgs::from(image))
        }
    }
}

/// A reference that normalises has a digest exactly where it holds an `@`.
/// Without one, the arguments of its pull name the image as its registry
/// domain, a slash and its name, at its tag; with one, the conversion fails
/// as unsupported.
pub proof fn lemma_pull_args_of_reference(raw: Seq<char>, parsed: Option<UrlPartsView>)
    requires
        normalized(raw, parsed) is Ok,
    ensures
        ({
            let image = normalized(raw, parsed)->Ok_0;
            &&& image.digest is Some <==> raw.contains('@')
            &&& !raw.contains('@') ==> pull_args(image) == Ok::<ImageCreateArgsView, FailureView>(
                ImageCreateArgsView {
                    from_image: image.domain + "/"@ + image.name,
                    tag: image.tag,
                },
            )
            &&& raw.contains('@') ==> pull_args(image) == Err::<ImageCreateArgsView, FailureView>(
                FailureView::UnsupportedConversion,
            )
        }),
{
}

/// The address of a pull.
pub open spec fn pull_url(host: Seq<char>, args: ImageCreateArgsView) -> Seq<char> {
    host + "/images/create?fromImage="@ + args.from_image + "&tag="@ + args.tag
}

/// The headers of a pull: the credential for the image's registry travels
/// in the registry-auth header, where there is one.
pub open spec fn pull_headers(credential: Option<Credential>) -> Seq<(Seq<char>, Seq<char>)> {
    match credential {
        Some(c) => seq![json_header(), ("X-Registry-Auth"@, registry_auth_text(c))],
        None => seq![json_header()],
    }
}

/// The request that pulls `args`, which name the image `image`.
pub open spec fn pull_request(api: ApiView, args: ImageCreateArgsView, image: ImageView) -> RequestView {
    RequestView {
        op: EngineOp::Pull,
        method: Method::Post,
        url: pull_url(api.host, args),
        headers: pull_headers(resolved(api.store, image)),
        body: BodyView::Empty,
    }
}

/// The request that pulls `args`, of which no more is known: their image
/// is normalised to find its registry.
pub open spec fn create_image(api: ApiView, args: ImageCreateArgsView) -> Result<
    RequestView,
    FailureView,
> {
    match normal_form(args.from_image) {
        Ok(image) => Ok(pull_request(api, args, image)),
        Err(e) => Err(FailureView::InvalidReference(e)),
    }
}

/// The request that pulls the image that `tag` refers to: the reference is
/// normalised, and the credential is the one for its registry.
pub open spec fn pull_image(api: ApiView, tag: Seq<char>) -> Result<RequestView, FailureView> {
    match normal_form(tag) {
        Ok(image) => match pull_args(image) {
            Ok(args) => Ok(pull_request(api, args, image)),
            Err(e) => Err(e),
        },
        Err(e) => Err(FailureView::InvalidReference(e)),
    }
}

/// `res` is the executable form of `expected`.
pub open spec fn request_result_is(
    res: Result<EngineRequest, Failure>,
    expected: Result<RequestView, FailureView>,
) -> bool {
    match res {
        Ok(request) => expected == Ok::<RequestView, FailureView>(request@),
        Err(e) => expected == Err::<RequestView, FailureView>(e@),
    }
}

/// The header that announces JSON.
fn content_type() -> (header: Header)
    ensures
        header@ == json_header(),
{
    Header { name: String::from_str("Content-Type"), value: String::from_str("application/json") }
}

impl Images {
    /// The request that pulls `body`, whose image is known to be `image`.
    pub fn create_for(&self, body: &ImageCreateArgs, image: &Image) -> (request: EngineRequest)
        ensures
            request@ == pull_request(self@, body@, image@),
    {
        let url = String::from_str(self.api.client.host()).concat(
            "/images/create?fromImage=",
        ).concat(body.fromImage.as_str()).concat("&tag=").concat(body.tag.as_str());
        let mut headers: Vec<Header> = Vec::new();
        headers.push(content_type());
        match resolve(&self.api.docker_config, image) {
            Some(auth) => {
                headers.push(
                    Header {
                        name: String::from_str("X-Registry-Auth"),
                        value: auth.registry_auth_header(),
                    },
                );
            },
            None => {},
        }
        let request = EngineRequest {
            op: EngineOp::Pull,
            method: Method::Post,
            url,
            headers,
            body: Body::Empty,
        };
        assert(request@.headers =~= pull_headers(resolved(self@.store, image@)));
        request
    }

    /// The request that pulls `body`.
    pub fn create(&self, body: &ImageCreateArgs) -> (res: Result<EngineRequest, Failure>)
        ensures
            request_result_is(res, create_image(self@, body@)),
    {
        match normalize_image_tag(body.fromImage.clone()) {
            Ok(image) => Ok(self.create_for(body, &image)),
            Err(e) => Err(Failure::InvalidReference(e)),
        }
    }

    /// What the engine's reply to a pull means: status 200 confirms it.
    pub fn create_outcome(reply: Reply) -> (res: Result<(), Failure>)
        ensures
            unit_result_is(res, checked(EngineOp::Pull, reply@)),
    {
        match check_reply(EngineOp::Pull, reply) {
            Ok(_) => Ok(()),
            Err(e) => Err(e),
        }
    }

    /// The request that pulls the image that `tag` refers to.
    pub fn pull(&self, tag: String) -> (res: Result<EngineRequest, Failure>)
        ensures
            request_result_is(res, pull_image(self@, tag@)),
    {
        match normalize_image_tag(tag) {
            Ok(image) => match ImageCreateArgs::try_from(image.clone()) {
                Ok(args) => Ok(self.create_for(&args, &image)),
                Err(e) => Err(e),
            },
            Err(e) => Err(Failure::InvalidReference(e)),
        }
    }
}

/// The operations on the set of containers.
#[derive(Debug, Clone, PartialEq, Eq)]
pub struct Containers {
    api: Api,
}

impl View for Containers {
    type V = ApiView;

    closed spec fn view(&self) -> ApiView {
        self.api@
    }
}

/// What a new container is made from.
#[derive(Debug, Clone, PartialEq, Eq)]
pub struct ContainerCreateArgs {
    pub Image: String,
    pub Cmd: Option<String>,
    pub AttachStdin: bool,
    pub OpenStdin: bool,
    pub Tty: bool,
}

/// The arguments of a container's creation as sequences of characters.
pub struct ContainerCreateArgsView {
    pub image: Seq<char>,
    pub cmd: Option<Seq<char>>,
    pub attach_stdin: bool,
    pub open_stdin: bool,
    pub tty: bool,
}

impl View for ContainerCreateArgs {
    type V = ContainerCreateArgsView;

    open spec fn view(&self) -> ContainerCreateArgsView {
        ContainerCreateArgsView {
            image: self.Image@,
            cmd: match self.Cmd {
                Some(c) => Some(c@),
                None => None,
            },
            attach_stdin: self.AttachStdin,
            open_stdin: self.OpenStdin,
            tty: self.Tty,
        }
    }
}

/// What the engine answers to a container's creation.
#[derive(Debug, Clone, PartialEq, Eq)]
pub struct ContainerCreateResponse {
    pub Id: String,
}

/// A truth value in JSON.
pub open spec fn json_bool(b: bool) -> Seq<char> {
    if b {
        "true"@
    } else {
        "false"@
    }
}

/// The JSON object that describes a new container, framed from the JSON
/// string literals of its image and command.
pub open spec fn container_json(
    quoted_image: Seq<char>,
    quoted_cmd: Option<Seq<char>>,
    attach_stdin: bool,
    open_stdin: bool,
    tty: bool,
) -> Seq<char> {
    "{\"Image\":"@ + quoted_image + ",\"Cmd\":"@ + (match quoted_cmd {
        Some(c) => c,
        None => "null"@,
    }) + ",\"AttachStdin\":"@ + json_bool(attach_stdin) + ",\"OpenStdin\":"@ + json_bool(
        open_stdin,
    ) + ",\"Tty\":"@ + json_bool(tty) + "}"@
}

/// The JSON body of the request that creates a container.
pub open spec fn create_body(args: ContainerCreateArgsView) -> Seq<char> {
    container_json(
        json_quoted(args.image),
        match args.cmd {
            Some(c) => Some(json_quoted(c)),
            None => None,
        },
        args.attach_stdin,
        args.open_stdin,
        args.tty,
    )
}

/// The request that creates a container.
pub open spec fn create_request(api: ApiView, args: ContainerCreateArgsView) -> RequestView {
    RequestView {
        op: EngineOp::Create,
        method: Method::Post,
        url: api.host + "/containers/create"@,
        headers: seq![json_header()],
        body: BodyView::Text(create_body(args)),
    }
}

/// What the reply to a creation means, given the `Id` that the JSON parser
/// read from its body: status 201 and an `Id` give the container; status
/// 201 without an `Id` is a malformed response; any other reply is the
/// failure that it stands for.
pub open spec fn created(api: ApiView, reply: ReplyView, id: Option<Seq<char>>) -> Result<
    ContainerView,
    FailureView,
> {
    match checked(EngineOp::Create, reply) {
        Ok(body) => match id {
            Some(id) => Ok(ContainerView { id, api }),
            None => Err(FailureView::MalformedResponse { op: EngineOp::Create, body }),
        },
        Err(e) => Err(e),
    }
}

/// `res` is the executable form of `expected`.
pub open spec fn container_result_is(
    res: Result<Container, Failure>,
    expected: Result<ContainerView, FailureView>,
) -> bool {
    match res {
        Ok(container) => expected == Ok::<ContainerView, FailureView>(container@),
        Err(e) => expected == Err::<ContainerView, FailureView>(e@),
    }
}

/// A truth value in JSON.
fn bool_text(b: bool) -> (text: &'static str)
    ensures
        text@ == json_bool(b),
{
    if b {
        "true"
    } else {
        "false"
    }
}

/// The JSON string literal for `text`.
fn quoted(text: &str) -> (res: String)
    ensures
        res@ == json_quoted(text@),
{
    // A string always serialises: the other arm is never taken.
    match json_quote(text) {
        Ok(q) => q,
        Err(_) => String::new(),
    }
}

impl Containers {
    /// Frames the JSON object that describes a new container.
    pub fn frame_json(
        quoted_image: &str,
        quoted_cmd: Option<&str>,
        attach_stdin: bool,
        open_stdin: bool,
        tty: bool,
    ) -> (json: String)
        ensures
            json@ == container_json(
                quoted_image@,
                match quoted_cmd {
                    Some(c) => Some(c@),
                    None => None,
                },
                attach_stdin,
                open_stdin,
                tty,
            ),
    {
        let cmd = match quoted_cmd {
            Some(c) => c,
            None => "null",
        };
        String::from_str("{\"Image\":").concat(quoted_image).concat(",\"Cmd\":").concat(
            cmd,
        ).concat(",\"AttachStdin\":").concat(bool_text(attach_stdin)).concat(
            ",\"OpenStdin\":",
        ).concat(bool_text(open_stdin)).concat(",\"Tty\":").concat(bool_text(tty)).concat("}")
    }

    /// The request that creates a container from `body`.
    pub fn create(&self, body: &ContainerCreateArgs) -> (request: EngineRequest)
        ensures
            request@ == create_request(self@, body@),
    {
        let image = quoted(body.Image.as_str());
        let json = match &body.Cmd {
            Some(c) => {
                let cmd = quoted(c.as_str());
                Containers::frame_json(
                    image.as_str(),
                    Some(cmd.as_str()),
                    body.AttachStdin,
                    body.OpenStdin,
                    body.Tty,
                )
            },
            None => Containers::frame_json(
                image.as_str(),
                None,
                body.AttachStdin,
                body.OpenStdin,
                body.Tty,
            ),
        };
        let mut headers: Vec<Header> = Vec::new();
        headers.push(content_type());
        let request = EngineRequest {
            op: EngineOp::Create,
            method: Method::Post,
            url: String::from_str(self.api.client.host()).concat("/containers/create"),
            headers,
            body: Body::Text(json),
        };
        assert(request@.headers =~= seq![json_header()]);
        request
    }

    /// What the reply to a creation means, given what was parsed from its
    /// body.
    pub fn created(&self, reply: Reply, parsed: Option<ContainerCreateResponse>) -> (res: Result<
        Container,
        Failure,
    >)
        ensures
            container_result_is(
                res,
                created(
                    self@,
                    reply@,
                    match parsed {
                        Some(response) => Some(response.Id@),
                        None => None,
                    },
                ),
            ),
    {
        match check_reply(EngineOp::Create, reply) {
            Ok(body) => match parsed {
                Some(response) => Ok(Container { id: response.Id, api: self.api.clone() }),
                None => Err(Failure::MalformedResponse { op: EngineOp::Create, body }),
            },
            Err(e) => Err(e),
        }
    }

    /// What the reply to a creation means. The body is parsed as JSON for
    /// the `Id` of the new container.
    pub fn create_outcome(&self, reply: Reply) -> (res: Result<Container, Failure>)
        ensures
            container_result_is(
                res,
                created(self@, reply@, json_text_member(reply_body(reply@), "Id"@)),
            ),
    {
        let parsed = match &reply {
            Reply::Response { status, body } => match json_member(body.as_str(), "Id") {
                Some(id) => Some(ContainerCreateResponse { Id: id }),
                None => None,
            },
            _ => None,
        };
        self.created(reply, parsed)
    }
}

/// One container on the engine.
#[derive(Debug, Clone, PartialEq, Eq)]
pub struct Container {
    id: String,
    api: Api,
}

/// A container's id and the engine that holds it.
pub struct ContainerView {
    pub id: Seq<char>,
    pub api: ApiView,
}

impl View for Container {
    type V = ContainerView;

    closed spec fn view(&self) -> ContainerView {
        ContainerView { id: self.id@, api: self.api@ }
    }
}

/// The address of a container, followed by `suffix`.
pub open spec fn container_url(container: ContainerView, suffix: Seq<char>) -> Seq<char> {
    container.api.host + "/containers/"@ + container.id + suffix
}

/// The request that starts a container.
pub open spec fn start_request(container: ContainerView) -> RequestView {
    RequestView {
        op: EngineOp::Start,
        method: Method::Post,
        url: container_url(container, "/start"@),
        headers: seq![json_header()],
        body: BodyView::Empty,
    }
}

/// The request that attaches to a container's input stream and writes
/// `input` to it.
pub open spec fn stdin_request(container: ContainerView, input: Seq<u8>) -> RequestView {
    RequestView {
        op: EngineOp::Stdin,
        method: Method::Post,
        url: container_url(container, "/attach?stream=1&stdin=1"@),
        headers: Seq::empty(),
        body: BodyView::Bytes(input),
    }
}

/// The request that waits for a container to stop.
pub open spec fn wait_request(container: ContainerView) -> RequestView {
    RequestView {
        op: EngineOp::Wait,
        method: Method::Post,
        url: container_url(container, "/wait"@),
        headers: seq![json_header()],
        body: BodyView::Empty,
    }
}

/// The request that fetches what a container wrote to its output.
pub open spec fn logs_request(container: ContainerView) -> RequestView {
    RequestView {
        op: EngineOp::Logs,
        method: Method::Get,
        url: container_url(container, "/logs?stdout=true"@),
        headers: Seq::empty(),
        body: BodyView::Empty,
    }
}

/// The request that deletes a container.
pub open spec fn delete_request(container: ContainerView) -> RequestView {
    RequestView {
        op: EngineOp::Delete,
        method: Method::Delete,
        url: container_url(container, Seq::empty()),
        headers: seq![json_header()],
        body: BodyView::Empty,
    }
}

impl Container {
    /// The id that the engine gave the container.
    pub fn id(&self) -> (id: &str)
        ensures
            id@ == self@.id,
    {
        self.id.as_str()
    }

    /// The address of the container, followed by `suffix`.
    fn url(&self, suffix: &str) -> (url: String)
        ensures
            url@ == container_url(self@, suffix@),
    {
        String::from_str(self.api.client.host()).concat("/containers/").concat(
            self.id.as_str(),
        ).concat(suffix)
    }

    /// A request without body to the container.
    fn request(&self, op: EngineOp, method: Method, suffix: &str, json: bool) -> (request:
        EngineRequest)
        ensures
            request@ == (RequestView {
                op,
                method,
                url: container_url(self@, suffix@),
                headers: if json {
                    seq![json_header()]
                } else {
                    Seq::empty()
                },
                body: BodyView::Empty,
            }),
    {
        let mut headers: Vec<Header> = Vec::new();
        if json {
            headers.push(content_type());
        }
        let request = EngineRequest { op, method, url: self.url(suffix), headers, body: Body::Empty };
        assert(request@.headers =~= if json {
            seq![json_header()]
        } else {
            Seq::empty()
        });
        request
    }

    /// The request that starts the container.
    pub fn start(&self) -> (request: EngineRequest)
        ensures
            request@ == start_request(self@),
    {
        self.request(EngineOp::Start, Method::Post, "/start", true)
    }

    /// What the reply to a start means: status 204 confirms it.
    pub fn start_outcome(reply: Reply) -> (res: Result<(), Failure>)
        ensures
            unit_result_is(res, checked(EngineOp::Start, reply@)),
    {
        match check_reply(EngineOp::Start, reply) {
            Ok(_) => Ok(()),
            Err(e) => Err(e),
        }
    }

    /// The request that writes `input` to the container's input stream.
    pub fn send_to_stdin(&self, input: Vec<u8>) -> (request: EngineRequest)
        ensures
            request@ == stdin_request(self@, input@),
    {
        let request = EngineRequest {
            op: EngineOp::Stdin,
            method: Method::Post,
            url: self.url("/attach?stream=1&stdin=1"),
            headers: Vec::new(),
            body: Body::Bytes(input),
        };
        assert(request@.headers =~= Seq::empty());
        request
    }

    /// What the reply to a write means: that the bytes were written
    /// confirms it.
    pub fn stdin_outcome(reply: Reply) -> (res: Result<(), Failure>)
        ensures
            unit_result_is(res, checked(EngineOp::Stdin, reply@)),
    {
        match check_reply(EngineOp::Stdin, reply) {
            Ok(_) => Ok(()),
            Err(e) => Err(e),
        }
    }

    /// The request that waits for the container to stop.
    pub fn wait(&self) -> (request: EngineRequest)
        ensures
            request@ == wait_request(self@),
    {
        self.request(EngineOp::Wait, Method::Post, "/wait", true)
    }

    /// What the reply to a wait means: status 200 confirms it.
    pub fn wait_outcome(reply: Reply) -> (res: Result<(), Failure>)
        ensures
            unit_result_is(res, checked(EngineOp::Wait, reply@)),
    {
        match check_reply(EngineOp::Wait, reply) {
            Ok(_) => Ok(()),
            Err(e) => Err(e),
        }
    }

    /// The request that deletes the container.
    pub fn delete(&self) -> (request: EngineRequest)
        ensures
            request@ == delete_request(self@),
    {
        proof {
            reveal_strlit("");
            assert(""@ =~= Seq::<char>::empty());
        }
        self.request(EngineOp::Delete, Method::Delete, "", true)
    }

    /// What the reply to a deletion means: status 204 confirms it.
    pub fn delete_outcome(reply: Reply) -> (res: Result<(), Failure>)
        ensures
            unit_result_is(res, checked(EngineOp::Delete, reply@)),
    {
        match check_reply(EngineOp::Delete, reply) {
            Ok(_) => Ok(()),
            Err(e) => Err(e),
        }
    }

    /// The request that fetches what the container wrote to its output.
    pub fn logs(&self) -> (request: EngineRequest)
        ensures
            request@ == logs_request(self@),
    {
        self.request(EngineOp::Logs, Method::Get, "/logs?stdout=true", false)
    }

    /// What the reply to a fetch of the logs means: with status 200 its
    /// body is the container's output.
    pub fn logs_outcome(reply: Reply) -> (res: Result<String, Failure>)
        ensures
            crate::engine::text_result_is(res, checked(EngineOp::Logs, reply@)),
    {
        check_reply(EngineOp::Logs, reply)
    }
}

} // verus!
