//! The HTTP dispatcher: which of the three kinds of request a path asks for, what
//! has to be fetched to answer it, and the reply once it has been fetched.
//!
//! A request is answered in steps. [`handle_request`] is told what happened last
//! and says what to do next; the caller does it and comes back with the outcome,
//! until the action is a reply or a failure.

use crate::config::ServerConfig;
use crate::schema::{ClientConnection, ClientConnectionModel, Server, ServerModel};
use crate::status::{
    client_status, network_status, server_status, status_of, NetworkStatus, NetworkStatusModel,
};
use std::path::PathBuf;
use vstd::prelude::*;

verus! {

/// The status code of a reply that carries what was asked for.
pub const STATUS_OK: u16 = 200;

/// The status code of a reply to a request for something that is not there.
pub const STATUS_NOT_FOUND: u16 = 404;

/// The byte that separates the components of a path.
pub const SEPARATOR: u8 = 0x2f;

/// The body of a reply.
#[derive(Debug, Clone, PartialEq, Eq)]
pub enum Body {
    /// Nothing.
    Empty,
    /// A text, sent as it is.
    Text(String),
    /// The contents of a file, sent as they are.
    Bytes(Vec<u8>),
}

/// A reply to an HTTP request.
#[derive(Debug, Clone, PartialEq, Eq)]
pub struct Reply {
    /// The status code.
    pub status: u16,
    /// The value of the `Content-Type` header, where the reply has one.
    pub content_type: Option<String>,
    /// The body.
    pub body: Body,
}

/// What a [`Body`] says.
pub enum BodyModel {
    Empty,
    Text(Seq<char>),
    Bytes(Seq<u8>),
}

/// What a [`Reply`] says.
pub struct ReplyModel {
    pub status: u16,
    pub content_type: Option<Seq<char>>,
    pub body: BodyModel,
}

impl DeepView for Body {
    type V = BodyModel;

    open spec fn deep_view(&self) -> BodyModel {
        match self {
            Body::Empty => BodyModel::Empty,
            Body::Text(text) => BodyModel::Text(text@),
            Body::Bytes(bytes) => BodyModel::Bytes(bytes@),
        }
    }
}

impl DeepView for Reply {
    type V = ReplyModel;

    open spec fn deep_view(&self) -> ReplyModel {
        ReplyModel {
            status: self.status,
            content_type: match self.content_type {
                Some(value) => Some(value@),
                None => None,
            },
            body: self.body.deep_view(),
        }
    }
}

/// The reply that carries the status document: 200, marked as JSON.
pub open spec fn status_reply(json: Seq<char>) -> ReplyModel {
    ReplyModel {
        status: STATUS_OK,
        content_type: Some("application/json"@),
        body: BodyModel::Text(json),
    }
}

/// The reply that carries a client's tunnel configuration: 200, the text unchanged.
pub open spec fn config_reply(text: Seq<char>) -> ReplyModel {
    ReplyModel { status: STATUS_OK, content_type: None, body: BodyModel::Text(text) }
}

/// The reply to a request for the configuration of a client that could not be
/// produced: 404, with the reason as the body.
pub open spec fn config_missing_reply(message: Seq<char>) -> ReplyModel {
    ReplyModel { status: STATUS_NOT_FOUND, content_type: None, body: BodyModel::Text(message) }
}

/// The reply that carries a static file: 200, the bytes unchanged.
pub open spec fn file_reply(bytes: Seq<u8>) -> ReplyModel {
    ReplyModel { status: STATUS_OK, content_type: None, body: BodyModel::Bytes(bytes) }
}

/// The reply to a request for a static file that is not served: 404, nothing else.
pub open spec fn not_found_reply() -> ReplyModel {
    ReplyModel { status: STATUS_NOT_FOUND, content_type: None, body: BodyModel::Empty }
}

/// What a request asks for.
#[derive(Debug, Clone, PartialEq, Eq)]
pub enum Route {
    /// The status document.
    Status,
    /// The tunnel configuration of the client of this name. The name is the rest of
    /// the path as it came, undecoded, and may be empty.
    ClientConfig { name: String },
    /// The static file at this path, relative to the static directory.
    Asset { relative: String },
}

/// What a [`Route`] says.
pub enum RouteModel {
    Status,
    ClientConfig { name: Seq<char> },
    Asset { relative: Seq<char> },
}

impl DeepView for Route {
    type V = RouteModel;

    open spec fn deep_view(&self) -> RouteModel {
        match self {
            Route::Status => RouteModel::Status,
            Route::ClientConfig { name } => RouteModel::ClientConfig { name: name@ },
            Route::Asset { relative } => RouteModel::Asset { relative: relative@ },
        }
    }
}

/// The path of the status document.
pub open spec fn status_path() -> Seq<char> {
    "/data"@
}

/// The prefix of the paths of client configurations.
pub open spec fn config_prefix() -> Seq<char> {
    "/conf/"@
}

/// The path of a static file relative to the static directory: `index.html` for
/// the path `/`, else the path without its leading `/`. A path that has no leading
/// `/` stands for itself.
pub open spec fn asset_path(path: Seq<char>) -> Seq<char> {
    if path == "/"@ {
        "index.html"@
    } else if path.len() > 0 && path[0] == '/' {
        path.skip(1)
    } else {
        path
    }
}

/// The route of a request path. Paths are compared as they are, case included;
/// the first rule that fits decides.
pub open spec fn route_of(path: Seq<char>) -> RouteModel {
    if path == status_path() {
        RouteModel::Status
    } else if config_prefix().is_prefix_of(path) {
        RouteModel::ClientConfig { name: path.skip(config_prefix().len() as int) }
    } else {
        RouteModel::Asset { relative: asset_path(path) }
    }
}

/// Whether `text`, which has `len` characters, begins with `prefix`. Meant for the
/// few short prefixes of this module: the time taken grows with the square of the
/// length of `prefix`.
fn begins_with(text: &str, len: usize, prefix: &str) -> (b: bool)
    requires
        len == text@.len(),
    ensures
        b == prefix@.is_prefix_of(text@),
{
    let n: usize = prefix.unicode_len();
    if len < n {
        return false;
    }
    let mut i: usize = 0;
    while i < n
        invariant
            i <= n,
            n == prefix@.len(),
            n <= len,
            len == text@.len(),
            forall|k: int| 0 <= k < i ==> text@[k] == prefix@[k],
        decreases n - i,
    {
        if text.get_char(i) != prefix.get_char(i) {
            return false;
        }
        i += 1;
    }
    true
}

/// Finds what a request path asks for.
///
/// `/data` is the status document. A path that begins with `/conf/` asks for the
/// configuration of the client named by the rest of the path, which is taken as it
/// is. Every other path names a static file: `/` stands for `index.html`, and any
/// other path for itself without its leading `/`.
pub fn route(path: &str) -> (r: Route)
    ensures
        r.deep_view() == route_of(path@),
{
    proof {
        reveal_strlit("/data");
        reveal_strlit("/conf/");
        reveal_strlit("/");
    }
    let len: usize = path.unicode_len();
    if len == 5 && begins_with(path, len, "/data") {
        assert(path@ =~= "/data"@);
        Route::Status
    } else if begins_with(path, len, "/conf/") {
        Route::ClientConfig { name: path.substring_char(6, len).to_owned() }
    } else if len == 1 && begins_with(path, len, "/") {
        assert(path@ =~= "/"@);
        Route::Asset { relative: "index.html".to_owned() }
    } else if begins_with(path, len, "/") {
        assert(path@[0] == "/"@[0]);
        Route::Asset { relative: path.substring_char(1, len).to_owned() }
    } else {
        Route::Asset { relative: path.to_owned() }
    }
}

/// Whether the path `target` lies under the directory `root`, both given as the
/// bytes of resolved paths: absolute, with no `.`, no `..`, no link and no doubled
/// separator left in them.
///
/// The bytes of `root` must open `target`, and must end there at the end of a
/// component: `/srv/www` holds `/srv/www` and `/srv/www/a`, not `/srv/www-other`.
/// An empty `root` holds nothing, and nothing holds an empty `target`.
pub open spec fn within_root(root: Seq<u8>, target: Seq<u8>) -> bool {
    &&& 0 < root.len() <= target.len()
    &&& target.subrange(0, root.len() as int) == root
    &&& (target.len() == root.len() || root.last() == SEPARATOR || target[root.len() as int]
        == SEPARATOR)
}

/// Decides whether the resolved path `target` lies under the resolved directory
/// `root`. Both must have been resolved against the file system first: on paths
/// as a client wrote them the answer protects nothing.
pub fn is_within_root(root: &[u8], target: &[u8]) -> (b: bool)
    ensures
        b == within_root(root@, target@),
{
    let n: usize = root.len();
    if n == 0 || target.len() < n {
        return false;
    }
    let mut i: usize = 0;
    while i < n
        invariant
            i <= n,
            n == root@.len(),
            n <= target@.len(),
            forall|k: int| 0 <= k < i ==> root@[k] == target@[k],
        decreases n - i,
    {
        if root[i] != target[i] {
            return false;
        }
        i += 1;
    }
    assert(target@.subrange(0, n as int) =~= root@);
    target.len() == n || root[n - 1] == SEPARATOR || target[n] == SEPARATOR
}

/// A directory holds itself, and every path that continues it with a separator.
pub proof fn lemma_below_root_is_within(root: Seq<u8>, rest: Seq<u8>)
    requires
        root.len() > 0,
        rest.len() == 0 || rest[0] == SEPARATOR,
    ensures
        within_root(root, root + rest),
{
    assert((root + rest).subrange(0, root.len() as int) =~= root);
}

/// A directory does not hold a path that only continues its name: unless `root`
/// ends with a separator, `root` followed by anything that does not begin with
/// one lies outside, though it begins with the bytes of `root`.
pub proof fn lemma_sibling_is_outside_root(root: Seq<u8>, rest: Seq<u8>)
    requires
        root.len() > 0,
        root.last() != SEPARATOR,
        rest.len() > 0,
        rest[0] != SEPARATOR,
    ensures
        root.is_prefix_of(root + rest),
        !within_root(root, root + rest),
{
    assert((root + rest).subrange(0, root.len() as int) =~= root);
}

/// Whatever lies under a directory begins with the bytes of that directory.
pub proof fn lemma_within_root_begins_with_root(root: Seq<u8>, target: Seq<u8>)
    requires
        within_root(root, target),
    ensures
        root.is_prefix_of(target),
        target.len() > 0,
{
}

/// How far the handling of one request has come: what the handler waits for.
#[derive(Debug, Clone, Copy, PartialEq, Eq, Structural)]
pub enum Stage {
    /// Nothing has happened yet: the request is awaited.
    AwaitingRequest,
    /// The directory was asked for its servers and client connections.
    AwaitingDirectory,
    /// The status document was handed out to be written as JSON.
    AwaitingJson,
    /// The configuration of a client was asked for.
    AwaitingConfig,
    /// The static directory and the requested file are being resolved.
    AwaitingPaths,
    /// The requested file is being read.
    AwaitingContents,
    /// The request has been answered, or has failed.
    Done,
}

/// What the caller reports to the handler.
#[derive(Debug, Clone, PartialEq, Eq)]
pub enum Event {
    /// A request came in, for this path.
    Request { path: String },
    /// The directory gave all its servers and all its client connections.
    Directory { servers: Vec<Server>, clients: Vec<ClientConnection> },
    /// The status document, written as JSON.
    Json { text: String },
    /// The tunnel configuration of the client that was asked for.
    ClientConfig { text: String },
    /// The static directory and the requested file, both resolved against the file
    /// system: absolute, links followed.
    Resolved { root: Vec<u8>, target: Vec<u8> },
    /// The contents of the file that was to be read.
    Contents { bytes: Vec<u8> },
    /// What was asked for last could not be done.
    Failed { message: String },
}

/// Why a request got no reply.
#[derive(Debug, Clone, PartialEq, Eq)]
pub enum Failure {
    /// The directory could not be read, or the status document could not be
    /// written out.
    Upstream { message: String },
    /// The event is not one that the stage waits for.
    UnexpectedEvent,
}

/// What the handler asks the caller to do next.
#[derive(Debug, Clone, PartialEq, Eq)]
pub enum Action {
    /// Ask the directory for all servers and all client connections, then report
    /// [`Event::Directory`].
    LoadDirectory,
    /// Write the status document as JSON, then report [`Event::Json`].
    Serialize { status: NetworkStatus },
    /// Have the configuration of this client generated, then report
    /// [`Event::ClientConfig`].
    GenerateConfig { name: String },
    /// Resolve the directory `root`, and the path `relative` against it, then
    /// report [`Event::Resolved`].
    Resolve { root: PathBuf, relative: String },
    /// Read the file at this resolved path, then report [`Event::Contents`].
    ReadFile { path: Vec<u8> },
    /// Send this reply. The request is done.
    Respond { reply: Reply },
    /// Give up without a reply of this handler's choosing. The request is done.
    Fail { failure: Failure },
}

/// What an [`Event`] says.
pub enum EventModel {
    Request { path: Seq<char> },
    Directory { servers: Seq<ServerModel>, clients: Seq<ClientConnectionModel> },
    Json { text: Seq<char> },
    ClientConfig { text: Seq<char> },
    Resolved { root: Seq<u8>, target: Seq<u8> },
    Contents { bytes: Seq<u8> },
    Failed { message: Seq<char> },
}

/// What a [`Failure`] says.
pub enum FailureModel {
    Upstream { message: Seq<char> },
    UnexpectedEvent,
}

/// What an [`Action`] says.
pub enum ActionModel {
    LoadDirectory,
    Serialize { status: NetworkStatusModel },
    GenerateConfig { name: Seq<char> },
    Resolve { root: PathBuf, relative: Seq<char> },
    ReadFile { path: Seq<u8> },
    Respond { reply: ReplyModel },
    Fail { failure: FailureModel },
}

impl DeepView for Event {
    type V = EventModel;

    open spec fn deep_view(&self) -> EventModel {
        match self {
            Event::Request { path } => EventModel::Request { path: path@ },
            Event::Directory { servers, clients } => EventModel::Directory {
                servers: servers.deep_view(),
                clients: clients.deep_view(),
            },
            Event::Json { text } => EventModel::Json { text: text@ },
            Event::ClientConfig { text } => EventModel::ClientConfig { text: text@ },
            Event::Resolved { root, target } => EventModel::Resolved {
                root: root@,
                target: target@,
            },
            Event::Contents { bytes } => EventModel::Contents { bytes: bytes@ },
            Event::Failed { message } => EventModel::Failed { message: message@ },
        }
    }
}

impl DeepView for Failure {
    type V = FailureModel;

    open spec fn deep_view(&self) -> FailureModel {
        match self {
            Failure::Upstream { message } => FailureModel::Upstream { message: message@ },
            Failure::UnexpectedEvent => FailureModel::UnexpectedEvent,
        }
    }
}

impl DeepView for Action {
    type V = ActionModel;

    open spec fn deep_view(&self) -> ActionModel {
        match self {
            Action::LoadDirectory => ActionModel::LoadDirectory,
            Action::Serialize { status } => ActionModel::Serialize { status: status.deep_view() },
            Action::GenerateConfig { name } => ActionModel::GenerateConfig { name: name@ },
            Action::Resolve { root, relative } => ActionModel::Resolve {
                root: *root,
                relative: relative@,
            },
            Action::ReadFile { path } => ActionModel::ReadFile { path: path@ },
            Action::Respond { reply } => ActionModel::Respond { reply: reply.deep_view() },
            Action::Fail { failure } => ActionModel::Fail { failure: failure.deep_view() },
        }
    }
}

/// The end of a request that is answered with `reply`.
pub open spec fn respond(reply: ReplyModel) -> (Stage, ActionModel) {
    (Stage::Done, ActionModel::Respond { reply })
}

/// The end of a request that is given up because of `failure`.
pub open spec fn fail(failure: FailureModel) -> (Stage, ActionModel) {
    (Stage::Done, ActionModel::Fail { failure })
}

/// One step of the handling of a request: the stage that follows `stage` when
/// `event` is reported, and what is to be done then.
///
/// - A request is routed: the status document needs the directory, a client's
///   configuration needs the generator, a static file needs its path resolved
///   against the static directory of the configuration.
/// - The directory's answer becomes the status document, which goes out to be
///   written as JSON; the JSON becomes the reply. If either fails, so does the
///   request.
/// - A generated configuration becomes the reply; if there is none, the reply is
///   404 with the reason.
/// - A resolved file is read only if it lies under the resolved static
///   directory. If it does not, or nothing could be resolved, or the file could
///   not be read, the reply is 404 with no body.
/// - An event that the stage does not wait for ends the request as a failure.
pub open spec fn step(stage: Stage, event: EventModel, config: ServerConfig) -> (
    Stage,
    ActionModel,
) {
    match (stage, event) {
        (Stage::AwaitingRequest, EventModel::Request { path }) => match route_of(path) {
            RouteModel::Status => (Stage::AwaitingDirectory, ActionModel::LoadDirectory),
            RouteModel::ClientConfig { name } => (
                Stage::AwaitingConfig,
                ActionModel::GenerateConfig { name },
            ),
            RouteModel::Asset { relative } => (
                Stage::AwaitingPaths,
                ActionModel::Resolve { root: config.web_static_dir, relative },
            ),
        },
        (Stage::AwaitingDirectory, EventModel::Directory { servers, clients }) => (
            Stage::AwaitingJson,
            ActionModel::Serialize { status: status_of(servers, clients, config.base_domain@) },
        ),
        (Stage::AwaitingDirectory, EventModel::Failed { message }) => fail(
            FailureModel::Upstream { message },
        ),
        (Stage::AwaitingJson, EventModel::Json { text }) => respond(status_reply(text)),
        (Stage::AwaitingJson, EventModel::Failed { message }) => fail(
            FailureModel::Upstream { message },
        ),
        (Stage::AwaitingConfig, EventModel::ClientConfig { text }) => respond(config_reply(text)),
        (Stage::AwaitingConfig, EventModel::Failed { message }) => respond(
            config_missing_reply(message),
        ),
        (Stage::AwaitingPaths, EventModel::Resolved { root, target }) => if within_root(
            root,
            target,
        ) {
            (Stage::AwaitingContents, ActionModel::ReadFile { path: target })
        } else {
            respond(not_found_reply())
        },
        (Stage::AwaitingPaths, EventModel::Failed { message }) => respond(not_found_reply()),
        (Stage::AwaitingContents, EventModel::Contents { bytes }) => respond(file_reply(bytes)),
        (Stage::AwaitingContents, EventModel::Failed { message }) => respond(not_found_reply()),
        _ => fail(FailureModel::UnexpectedEvent),
    }
}

fn reply_not_found() -> (next: (Stage, Action))
    ensures
        (next.0, next.1.deep_view()) == respond(not_found_reply()),
{
    (
        Stage::Done,
        Action::Respond {
            reply: Reply { status: STATUS_NOT_FOUND, content_type: None, body: Body::Empty },
        },
    )
}

fn reply_text(status: u16, text: String) -> (next: (Stage, Action))
    ensures
        (next.0, next.1.deep_view()) == respond(
            ReplyModel { status, content_type: None, body: BodyModel::Text(text@) },
        ),
{
    (
        Stage::Done,
        Action::Respond { reply: Reply { status, content_type: None, body: Body::Text(text) } },
    )
}

fn give_up(failure: Failure) -> (next: (Stage, Action))
    ensures
        (next.0, next.1.deep_view()) == fail(failure.deep_view()),
{
    (Stage::Done, Action::Fail { failure })
}

/// Handles one request, one step at a time.
///
/// The caller starts with [`Stage::AwaitingRequest`] and [`Event::Request`], does
/// what the returned action asks for, and calls again with the returned stage and
/// the outcome, until the action is [`Action::Respond`] or [`Action::Fail`].
/// The step taken is exactly [`step`].
pub fn handle_request(stage: Stage, event: Event, config: &ServerConfig) -> (next: (
    Stage,
    Action,
))
    ensures
        (next.0, next.1.deep_view()) == step(stage, event.deep_view(), *config),
{
    match (stage, event) {
        (Stage::AwaitingRequest, Event::Request { path }) => match route(path.as_str()) {
            Route::Status => (Stage::AwaitingDirectory, Action::LoadDirectory),
            Route::ClientConfig { name } => (
                Stage::AwaitingConfig,
                Action::GenerateConfig { name },
            ),
            Route::Asset { relative } => (
                Stage::AwaitingPaths,
                Action::Resolve { root: config.web_static_dir.clone(), relative },
            ),
        },
        (Stage::AwaitingDirectory, Event::Directory { servers, clients }) => {
            let status = network_status(servers.as_slice(), clients.as_slice(), config);
            (Stage::AwaitingJson, Action::Serialize { status })
        },
        (Stage::AwaitingDirectory, Event::Failed { message }) => give_up(
            Failure::Upstream { message },
        ),
        (Stage::AwaitingJson, Event::Json { text }) => (
            Stage::Done,
            Action::Respond {
                reply: Reply {
                    status: STATUS_OK,
                    content_type: Some("application/json".to_owned()),
                    body: Body::Text(text),
                },
            },
        ),
        (Stage::AwaitingJson, Event::Failed { message }) => give_up(
            Failure::Upstream { message },
        ),
        (Stage::AwaitingConfig, Event::ClientConfig { text }) => reply_text(STATUS_OK, text),
        (Stage::AwaitingConfig, Event::Failed { message }) => reply_text(
            STATUS_NOT_FOUND,
            message,
        ),
        (Stage::AwaitingPaths, Event::Resolved { root, target }) => {
            if is_within_root(root.as_slice(), target.as_slice()) {
                (Stage::AwaitingContents, Action::ReadFile { path: target })
            } else {
                reply_not_found()
            }
        },
        (Stage::AwaitingPaths, Event::Failed { message }) => reply_not_found(),
        (Stage::AwaitingContents, Event::Contents { bytes }) => (
            Stage::Done,
            Action::Respond {
                reply: Reply { status: STATUS_OK, content_type: None, body: Body::Bytes(bytes) },
            },
        ),
        (Stage::AwaitingContents, Event::Failed { message }) => reply_not_found(),
        _ => give_up(Failure::UnexpectedEvent),
    }
}

/// A request for a static file is answered with 404 and an empty body whenever
/// the resolved file does not lie under the resolved static directory: whatever
/// the path was, the file is not read.
pub proof fn lemma_outside_root_is_not_found(
    path: Seq<char>,
    root: Seq<u8>,
    target: Seq<u8>,
    config: ServerConfig,
)
    requires
        route_of(path) is Asset,
        !within_root(root, target),
    ensures
        step(Stage::AwaitingRequest, EventModel::Request { path }, config) == (
            Stage::AwaitingPaths,
            ActionModel::Resolve { root: config.web_static_dir, relative: asset_path(path) },
        ),
        step(Stage::AwaitingPaths, EventModel::Resolved { root, target }, config) == respond(
            not_found_reply(),
        ),
{
}

/// No step asks for a file to be read unless it has just been told that the file
/// resolves to a path under the static directory, and then it asks for that path.
pub proof fn lemma_only_files_within_root_are_read(
    stage: Stage,
    event: EventModel,
    config: ServerConfig,
)
    ensures
        step(stage, event, config).1 is ReadFile ==> {
            &&& stage == Stage::AwaitingPaths
            &&& event matches EventModel::Resolved { root, target }
            &&& within_root(root, target)
            &&& step(stage, event, config) == (
                Stage::AwaitingContents,
                ActionModel::ReadFile { path: target },
            )
        },
{
}

/// The contents of a file are only ever sent by the step that follows a read, and
/// a read is only ever awaited by the step that asked for it.
pub proof fn lemma_contents_are_sent_only_after_a_read(
    stage: Stage,
    event: EventModel,
    config: ServerConfig,
)
    ensures
        step(stage, event, config).1 matches ActionModel::Respond { reply } && reply.body is Bytes
            ==> stage == Stage::AwaitingContents,
        step(stage, event, config).0 == Stage::AwaitingContents ==> step(stage, event, config).1
            is ReadFile,
{
}

/// A request for `/data` is answered from the whole directory: the status
/// document has one entry for each server and one for each client connection, in
/// the order of the directory, and its JSON is the body of a 200 reply that says
/// what it is.
pub proof fn lemma_status_document_mirrors_directory(
    servers: Seq<ServerModel>,
    clients: Seq<ClientConnectionModel>,
    json: Seq<char>,
    config: ServerConfig,
)
    ensures
        step(Stage::AwaitingRequest, EventModel::Request { path: status_path() }, config) == (
            Stage::AwaitingDirectory,
            ActionModel::LoadDirectory,
        ),
        step(Stage::AwaitingDirectory, EventModel::Directory { servers, clients }, config) == (
            Stage::AwaitingJson,
            ActionModel::Serialize { status: status_of(servers, clients, config.base_domain@) },
        ),
        status_of(servers, clients, config.base_domain@).servers.len() == servers.len(),
        status_of(servers, clients, config.base_domain@).clients.len() == clients.len(),
        forall|i: int|
            0 <= i < servers.len() ==> (#[trigger] status_of(
                servers,
                clients,
                config.base_domain@,
            ).servers[i]) == server_status(servers[i]),
        forall|i: int|
            0 <= i < clients.len() ==> (#[trigger] status_of(
                servers,
                clients,
                config.base_domain@,
            ).clients[i]) == client_status(clients[i]),
        step(Stage::AwaitingJson, EventModel::Json { text: json }, config) == respond(
            ReplyModel {
                status: 200,
                content_type: Some("application/json"@),
                body: BodyModel::Text(json),
            },
        ),
{
}

/// A request for `/conf/` followed by a name asks the generator for exactly that
/// name. The text that the generator gives is the body of a 200 reply, unchanged;
/// if it gives none, the reply is 404 with the generator's message.
pub proof fn lemma_client_config_is_passed_on(
    name: Seq<char>,
    text: Seq<char>,
    message: Seq<char>,
    config: ServerConfig,
)
    ensures
        step(
            Stage::AwaitingRequest,
            EventModel::Request { path: config_prefix() + name },
            config,
        ) == (Stage::AwaitingConfig, ActionModel::GenerateConfig { name }),
        step(Stage::AwaitingConfig, EventModel::ClientConfig { text }, config) == respond(
            ReplyModel { status: 200, content_type: None, body: BodyModel::Text(text) },
        ),
        step(Stage::AwaitingConfig, EventModel::Failed { message }, config) == respond(
            ReplyModel { status: 404, content_type: None, body: BodyModel::Text(message) },
        ),
{
    reveal_strlit("/conf/");
    reveal_strlit("/data");
    let path = config_prefix() + name;
    assert(path.skip(config_prefix().len() as int) =~= name);
}

/// Whether `stage` waits for `event`.
pub open spec fn expects(stage: Stage, event: EventModel) -> bool {
    match stage {
        Stage::AwaitingRequest => event is Request,
        Stage::AwaitingDirectory => event is Directory || event is Failed,
        Stage::AwaitingJson => event is Json || event is Failed,
        Stage::AwaitingConfig => event is ClientConfig || event is Failed,
        Stage::AwaitingPaths => event is Resolved || event is Failed,
        Stage::AwaitingContents => event is Contents || event is Failed,
        Stage::Done => false,
    }
}

/// The number of events that a request at `stage` has behind it.
pub open spec fn progress(stage: Stage) -> nat {
    match stage {
        Stage::AwaitingRequest => 0,
        Stage::AwaitingDirectory => 1,
        Stage::AwaitingConfig => 1,
        Stage::AwaitingPaths => 1,
        Stage::AwaitingJson => 2,
        Stage::AwaitingContents => 2,
        Stage::Done => 3,
    }
}

/// A request gets a reply unless the status document cannot be had: the only
/// failures are a directory that cannot be read, a status document that cannot be
/// written out, and an event out of turn.
pub proof fn lemma_requests_fail_only_upstream(
    stage: Stage,
    event: EventModel,
    config: ServerConfig,
)
    ensures
        step(stage, event, config).1 == (ActionModel::Fail {
            failure: FailureModel::UnexpectedEvent,
        }) <==> !expects(stage, event),
        step(stage, event, config).1 matches ActionModel::Fail {
            failure: FailureModel::Upstream { message },
        } ==> (stage == Stage::AwaitingDirectory || stage == Stage::AwaitingJson) && event
            == (EventModel::Failed { message }),
{
}

/// Every step moves a request on, and the request is done exactly when the
/// action is a reply or a failure. So a request is over after three events at
/// most, and nothing is asked for twice.
pub proof fn lemma_every_step_moves_on(stage: Stage, event: EventModel, config: ServerConfig)
    ensures
        step(stage, event, config).0 == Stage::Done || progress(step(stage, event, config).0)
            == progress(stage) + 1,
        step(stage, event, config).0 == Stage::Done <==> step(stage, event, config).1 is Respond
            || step(stage, event, config).1 is Fail,
{
}

} // verus!
