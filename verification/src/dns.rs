//! The DNS hosts file: its text, and the steps by which it is published.
//!
//! The file has two sections, the servers and then the clients. Each entry is one
//! line: the address, blanks up to a fixed column, and the host name under the
//! base domain. Entries stand in the order in which the directory gave them, so
//! that the same directory always gives the same file.

use crate::config::ServerConfig;
use crate::schema::{ClientConnection, ClientConnectionModel, Server, ServerModel};
use std::path::PathBuf;
use vstd::prelude::*;

verus! {

/// The width of the address column. A longer address is written out in full and
/// pushes the name to the right.
pub const ADDRESS_WIDTH: usize = 20;

/// An address and the name that it gets.
pub type Host = (Seq<char>, Seq<char>);

/// `n` blanks.
pub open spec fn blanks(n: nat) -> Seq<char> {
    Seq::new(n, |i: int| ' ')
}

/// The number of blanks that fill the address column behind an address of `len`
/// characters.
pub open spec fn padding(len: nat) -> nat {
    if len < ADDRESS_WIDTH {
        (ADDRESS_WIDTH - len) as nat
    } else {
        0
    }
}

/// One line of the hosts file: the address, filled up to the column width, a
/// blank, then `name.base_domain` and a line feed.
pub open spec fn host_entry(address: Seq<char>, name: Seq<char>, base_domain: Seq<char>) -> Seq<
    char,
> {
    address + blanks(padding(address.len())) + seq![' '] + name + seq!['.'] + base_domain
        + seq!['\n']
}

/// The lines of `hosts`, one after the other.
pub open spec fn host_lines(base_domain: Seq<char>, hosts: Seq<Host>) -> Seq<char>
    decreases hosts.len(),
{
    if hosts.len() == 0 {
        Seq::empty()
    } else {
        host_lines(base_domain, hosts.drop_last()) + host_entry(
            hosts.last().0,
            hosts.last().1,
            base_domain,
        )
    }
}

/// The address and the name of each server, in order.
pub open spec fn server_hosts(servers: Seq<ServerModel>) -> Seq<Host> {
    Seq::new(servers.len(), |i: int| (servers[i].address, servers[i].name))
}

/// The address and the client name of each connection, in order.
pub open spec fn client_hosts(clients: Seq<ClientConnectionModel>) -> Seq<Host> {
    Seq::new(clients.len(), |i: int| (clients[i].address, clients[i].name))
}

/// The section of the servers: its heading and one line per server.
pub open spec fn server_entries(base_domain: Seq<char>, servers: Seq<ServerModel>) -> Seq<char> {
    "# Servers\n"@ + host_lines(base_domain, server_hosts(servers))
}

/// The section of the clients: an empty line, its heading and one line per client
/// connection.
pub open spec fn clients_entries(base_domain: Seq<char>, clients: Seq<ClientConnectionModel>) -> Seq<
    char,
> {
    "\n# Clients\n"@ + host_lines(base_domain, client_hosts(clients))
}

/// The whole hosts file: the servers, then the clients.
pub open spec fn dns_config(
    base_domain: Seq<char>,
    servers: Seq<ServerModel>,
    clients: Seq<ClientConnectionModel>,
) -> Seq<char> {
    server_entries(base_domain, servers) + clients_entries(base_domain, clients)
}

/// Appends one line to `text`.
fn push_host_entry(text: &mut String, address: &str, name: &str, base_domain: &str)
    ensures
        final(text)@ == old(text)@ + host_entry(address@, name@, base_domain@),
{
    proof {
        reveal_strlit(" ");
        reveal_strlit(".");
        reveal_strlit("\n");
    }
    let ghost before = text@;
    let len: usize = address.unicode_len();
    text.append(address);
    let mut width: usize = len;
    while width < ADDRESS_WIDTH
        invariant
            len == address@.len(),
            len <= width,
            width <= ADDRESS_WIDTH || width == len,
            text@ == before + address@ + blanks((width - len) as nat),
        decreases ADDRESS_WIDTH - width,
    {
        proof {
            reveal_strlit(" ");
        }
        text.append(" ");
        width += 1;
    }
    text.append(" ");
    text.append(name);
    text.append(".");
    text.append(base_domain);
    text.append("\n");
}

/// Generate the entries of the servers.
///
/// The text is the heading `# Servers` and one line per server, in the order of
/// `servers`.
pub fn gen_server_entries(config: &ServerConfig, servers: &[Server]) -> (res: String)
    ensures
        res@ == server_entries(config.base_domain@, servers.deep_view()),
{
    let mut res = String::new();
    res.append("# Servers\n");
    let ghost hosts = server_hosts(servers.deep_view());
    let mut i: usize = 0;
    while i < servers.len()
        invariant
            i <= servers.len(),
            hosts == server_hosts(servers.deep_view()),
            res@ == "# Servers\n"@ + host_lines(config.base_domain@, hosts.take(i as int)),
        decreases servers.len() - i,
    {
        let server = &servers[i];
        push_host_entry(
            &mut res,
            server.address.as_str(),
            server.name.as_str(),
            config.base_domain.as_str(),
        );
        proof {
            let next = hosts.take(i + 1);
            assert(next.drop_last() =~= hosts.take(i as int));
        }
        i += 1;
    }
    assert(hosts.take(i as int) =~= hosts);
    res
}

/// Generate the entries of the clients.
///
/// The text is an empty line, the heading `# Clients` and one line per client
/// connection, in the order of `clients`.
pub fn gen_clients_entries(config: &ServerConfig, clients: &[ClientConnection]) -> (res: String)
    ensures
        res@ == clients_entries(config.base_domain@, clients.deep_view()),
{
    let mut res = String::new();
    res.append("\n# Clients\n");
    let ghost hosts = client_hosts(clients.deep_view());
    let mut i: usize = 0;
    while i < clients.len()
        invariant
            i <= clients.len(),
            hosts == client_hosts(clients.deep_view()),
            res@ == "\n# Clients\n"@ + host_lines(config.base_domain@, hosts.take(i as int)),
        decreases clients.len() - i,
    {
        let client = &clients[i];
        push_host_entry(
            &mut res,
            client.address.as_str(),
            client.client.name.as_str(),
            config.base_domain.as_str(),
        );
        proof {
            let next = hosts.take(i + 1);
            assert(next.drop_last() =~= hosts.take(i as int));
        }
        i += 1;
    }
    assert(hosts.take(i as int) =~= hosts);
    res
}

/// Generate the dns configuration: the section of the servers, then that of the
/// clients.
pub fn gen_dns_config(config: &ServerConfig, servers: &[Server], clients: &[ClientConnection]) -> (conf:
    String)
    ensures
        conf@ == dns_config(config.base_domain@, servers.deep_view(), clients.deep_view()),
{
    let mut conf = gen_server_entries(config, servers);
    let clients_part = gen_clients_entries(config, clients);
    conf.append(clients_part.as_str());
    conf
}

/// Two directories that give the same addresses and names in the same order give
/// the same hosts file, character for character and so byte for byte. Generating
/// the file again from an unchanged directory therefore changes nothing.
pub proof fn lemma_same_directory_same_hosts_file(
    base_domain: Seq<char>,
    servers: Seq<ServerModel>,
    clients: Seq<ClientConnectionModel>,
    servers_again: Seq<ServerModel>,
    clients_again: Seq<ClientConnectionModel>,
)
    requires
        server_hosts(servers) =~= server_hosts(servers_again),
        client_hosts(clients) =~= client_hosts(clients_again),
    ensures
        dns_config(base_domain, servers, clients) == dns_config(
            base_domain,
            servers_again,
            clients_again,
        ),
        vstd::utf8::encode_utf8(dns_config(base_domain, servers, clients))
            == vstd::utf8::encode_utf8(dns_config(base_domain, servers_again, clients_again)),
{
}

/// The lines of two lists of hosts, one list after the other, are the lines of the
/// first list followed by the lines of the second: no entry is moved, dropped or
/// written twice.
pub proof fn lemma_host_lines_follow_the_order(
    base_domain: Seq<char>,
    first: Seq<Host>,
    second: Seq<Host>,
)
    ensures
        host_lines(base_domain, first + second) == host_lines(base_domain, first) + host_lines(
            base_domain,
            second,
        ),
    decreases second.len(),
{
    if second.len() == 0 {
        assert(first + second =~= first);
    } else {
        lemma_host_lines_follow_the_order(base_domain, first, second.drop_last());
        assert((first + second).drop_last() =~= first + second.drop_last());
    }
}

/// The hosts file ends with a line feed, and so does each of its two sections.
pub proof fn lemma_hosts_file_ends_with_line_feed(
    base_domain: Seq<char>,
    servers: Seq<ServerModel>,
    clients: Seq<ClientConnectionModel>,
)
    ensures
        server_entries(base_domain, servers).last() == '\n',
        clients_entries(base_domain, clients).last() == '\n',
        dns_config(base_domain, servers, clients).last() == '\n',
{
    reveal_strlit("# Servers\n");
    reveal_strlit("\n# Clients\n");
}

/// How far the publishing of the hosts file has come: what the publisher waits
/// for.
#[derive(Debug, Clone, Copy, PartialEq, Eq, Structural)]
pub enum PublishStage {
    /// Nothing has happened yet.
    AwaitingTrigger,
    /// The directory was asked for its servers and client connections.
    AwaitingDirectory,
    /// The hosts file is being written.
    AwaitingWrite,
    /// The resolver is being told to read the file again.
    AwaitingReload,
    /// Publishing has ended.
    Done,
}

/// What the caller reports to the publisher.
#[derive(Debug, Clone, PartialEq, Eq)]
pub enum PublishEvent {
    /// The hosts file is to be published.
    Triggered,
    /// The directory gave all its servers and all its client connections.
    Directory { servers: Vec<Server>, clients: Vec<ClientConnection> },
    /// The hosts file holds the text that was to be written, and nothing else.
    Written,
    /// The process that signals the resolver has ended, with this exit code if it
    /// has one. Zero means that the resolver was told.
    ReloadExited { code: Option<i32> },
    /// What was asked for last could not be done.
    Failed { message: String },
}

/// What became of telling the resolver, once the file was written. None of these
/// makes publishing fail: a resolver that was not told reads the file when it
/// next starts or refreshes.
#[derive(Debug, Clone, PartialEq, Eq)]
pub enum Reload {
    /// The resolver was told.
    Reloaded,
    /// The signalling process ended with something else than zero.
    Refused { code: Option<i32> },
    /// The signalling process could not be run or awaited.
    Unavailable { message: String },
}

/// Why publishing failed.
#[derive(Debug, Clone, PartialEq, Eq)]
pub enum PublishError {
    /// The directory could not be read.
    Directory { message: String },
    /// The hosts file could not be written.
    Write { message: String },
    /// The event is not one that the stage waits for.
    UnexpectedEvent,
}

/// What the publisher asks the caller to do next.
#[derive(Debug, Clone, PartialEq, Eq)]
pub enum PublishAction {
    /// Ask the directory for all servers and all client connections, then report
    /// [`PublishEvent::Directory`].
    LoadDirectory,
    /// Replace the contents of the file at `path` by `text`, then report
    /// [`PublishEvent::Written`].
    WriteHosts { path: PathBuf, text: String },
    /// Send `signal` to the processes named `process` and wait for the signalling
    /// process to end, then report [`PublishEvent::ReloadExited`].
    ReloadResolver { signal: String, process: String },
    /// Publishing has succeeded: the file is written. `reload` is for the log.
    Succeed { reload: Reload },
    /// Publishing has failed.
    Fail { error: PublishError },
}

/// What a [`PublishEvent`] says.
pub enum PublishEventModel {
    Triggered,
    Directory { servers: Seq<ServerModel>, clients: Seq<ClientConnectionModel> },
    Written,
    ReloadExited { code: Option<i32> },
    Failed { message: Seq<char> },
}

/// What a [`Reload`] says.
pub enum ReloadModel {
    Reloaded,
    Refused { code: Option<i32> },
    Unavailable { message: Seq<char> },
}

/// What a [`PublishError`] says.
pub enum PublishErrorModel {
    Directory { message: Seq<char> },
    Write { message: Seq<char> },
    UnexpectedEvent,
}

/// What a [`PublishAction`] says.
pub enum PublishActionModel {
    LoadDirectory,
    WriteHosts { path: PathBuf, text: Seq<char> },
    ReloadResolver { signal: Seq<char>, process: Seq<char> },
    Succeed { reload: ReloadModel },
    Fail { error: PublishErrorModel },
}

impl DeepView for PublishEvent {
    type V = PublishEventModel;

    open spec fn deep_view(&self) -> PublishEventModel {
        match self {
            PublishEvent::Triggered => PublishEventModel::Triggered,
            PublishEvent::Directory { servers, clients } => PublishEventModel::Directory {
                servers: servers.deep_view(),
                clients: clients.deep_view(),
            },
            PublishEvent::Written => PublishEventModel::Written,
            PublishEvent::ReloadExited { code } => PublishEventModel::ReloadExited { code: *code },
            PublishEvent::Failed { message } => PublishEventModel::Failed { message: message@ },
        }
    }
}

impl DeepView for Reload {
    type V = ReloadModel;

    open spec fn deep_view(&self) -> ReloadModel {
        match self {
            Reload::Reloaded => ReloadModel::Reloaded,
            Reload::Refused { code } => ReloadModel::Refused { code: *code },
            Reload::Unavailable { message } => ReloadModel::Unavailable { message: message@ },
        }
    }
}

impl DeepView for PublishError {
    type V = PublishErrorModel;

    open spec fn deep_view(&self) -> PublishErrorModel {
        match self {
            PublishError::Directory { message } => PublishErrorModel::Directory {
                message: message@,
            },
            PublishError::Write { message } => PublishErrorModel::Write { message: message@ },
            PublishError::UnexpectedEvent => PublishErrorModel::UnexpectedEvent,
        }
    }
}

impl DeepView for PublishAction {
    type V = PublishActionModel;

    open spec fn deep_view(&self) -> PublishActionModel {
        match self {
            PublishAction::LoadDirectory => PublishActionModel::LoadDirectory,
            PublishAction::WriteHosts { path, text } => PublishActionModel::WriteHosts {
                path: *path,
                text: text@,
            },
            PublishAction::ReloadResolver { signal, process } => PublishActionModel::ReloadResolver {
                signal: signal@,
                process: process@,
            },
            PublishAction::Succeed { reload } => PublishActionModel::Succeed {
                reload: reload.deep_view(),
            },
            PublishAction::Fail { error } => PublishActionModel::Fail { error: error.deep_view() },
        }
    }
}

/// What became of the reload when the signalling process ended with `code`.
pub open spec fn reload_of(code: Option<i32>) -> ReloadModel {
    if code == Some(0i32) {
        ReloadModel::Reloaded
    } else {
        ReloadModel::Refused { code }
    }
}

/// The signal that makes the resolver read its hosts file again.
pub open spec fn reload_signal() -> Seq<char> {
    "SIGHUP"@
}

/// The name of the resolver's process.
pub open spec fn resolver_process() -> Seq<char> {
    "dnsmasq"@
}

/// One step of publishing: the stage that follows `stage` when `event` is
/// reported, and what is to be done then.
///
/// The directory is read, the hosts file is generated from it and written to the
/// place that the configuration names, and the resolver is told. Publishing fails
/// if the directory cannot be read or the file cannot be written, and on an event
/// that the stage does not wait for. Once the file is written it succeeds,
/// whatever becomes of the reload.
pub open spec fn publish_step(stage: PublishStage, event: PublishEventModel, config: ServerConfig) -> (
    PublishStage,
    PublishActionModel,
) {
    match (stage, event) {
        (PublishStage::AwaitingTrigger, PublishEventModel::Triggered) => (
            PublishStage::AwaitingDirectory,
            PublishActionModel::LoadDirectory,
        ),
        (PublishStage::AwaitingDirectory, PublishEventModel::Directory { servers, clients }) => (
            PublishStage::AwaitingWrite,
            PublishActionModel::WriteHosts {
                path: config.dns_hosts_file,
                text: dns_config(config.base_domain@, servers, clients),
            },
        ),
        (PublishStage::AwaitingDirectory, PublishEventModel::Failed { message }) => (
            PublishStage::Done,
            PublishActionModel::Fail { error: PublishErrorModel::Directory { message } },
        ),
        (PublishStage::AwaitingWrite, PublishEventModel::Written) => (
            PublishStage::AwaitingReload,
            PublishActionModel::ReloadResolver {
                signal: reload_signal(),
                process: resolver_process(),
            },
        ),
        (PublishStage::AwaitingWrite, PublishEventModel::Failed { message }) => (
            PublishStage::Done,
            PublishActionModel::Fail { error: PublishErrorModel::Write { message } },
        ),
        (PublishStage::AwaitingReload, PublishEventModel::ReloadExited { code }) => (
            PublishStage::Done,
            PublishActionModel::Succeed { reload: reload_of(code) },
        ),
        (PublishStage::AwaitingReload, PublishEventModel::Failed { message }) => (
            PublishStage::Done,
            PublishActionModel::Succeed { reload: ReloadModel::Unavailable { message } },
        ),
        _ => (
            PublishStage::Done,
            PublishActionModel::Fail { error: PublishErrorModel::UnexpectedEvent },
        ),
    }
}

fn reload_outcome(code: Option<i32>) -> (reload: Reload)
    ensures
        reload.deep_view() == reload_of(code),
{
    match code {
        Some(0) => Reload::Reloaded,
        _ => Reload::Refused { code },
    }
}

/// Update the hosts file of the DNS server, one step at a time.
///
/// The caller starts with [`PublishStage::AwaitingTrigger`] and
/// [`PublishEvent::Triggered`], does what the returned action asks for, and calls
/// again with the returned stage and the outcome, until the action is
/// [`PublishAction::Succeed`] or [`PublishAction::Fail`]. The step taken is
/// exactly [`publish_step`].
pub fn update_dns(stage: PublishStage, event: PublishEvent, config: &ServerConfig) -> (next: (
    PublishStage,
    PublishAction,
))
    ensures
        (next.0, next.1.deep_view()) == publish_step(stage, event.deep_view(), *config),
{
    match (stage, event) {
        (PublishStage::AwaitingTrigger, PublishEvent::Triggered) => (
            PublishStage::AwaitingDirectory,
            PublishAction::LoadDirectory,
        ),
        (PublishStage::AwaitingDirectory, PublishEvent::Directory { servers, clients }) => {
            let text = gen_dns_config(config, servers.as_slice(), clients.as_slice());
            (
                PublishStage::AwaitingWrite,
                PublishAction::WriteHosts { path: config.dns_hosts_file.clone(), text },
            )
        },
        (PublishStage::AwaitingDirectory, PublishEvent::Failed { message }) => (
            PublishStage::Done,
            PublishAction::Fail { error: PublishError::Directory { message } },
        ),
        (PublishStage::AwaitingWrite, PublishEvent::Written) => (
            PublishStage::AwaitingReload,
            PublishAction::ReloadResolver {
                signal: "SIGHUP".to_owned(),
                process: "dnsmasq".to_owned(),
            },
        ),
        (PublishStage::AwaitingWrite, PublishEvent::Failed { message }) => (
            PublishStage::Done,
            PublishAction::Fail { error: PublishError::Write { message } },
        ),
        (PublishStage::AwaitingReload, PublishEvent::ReloadExited { code }) => (
            PublishStage::Done,
            PublishAction::Succeed { reload: reload_outcome(code) },
        ),
        (PublishStage::AwaitingReload, PublishEvent::Failed { message }) => (
            PublishStage::Done,
            PublishAction::Succeed { reload: Reload::Unavailable { message } },
        ),
        _ => (PublishStage::Done, PublishAction::Fail { error: PublishError::UnexpectedEvent }),
    }
}

/// Once the hosts file is written, publishing succeeds: neither a signalling
/// process that cannot be run, nor one that ends with an error, makes it fail.
pub proof fn lemma_publish_survives_reload(event: PublishEventModel, config: ServerConfig)
    requires
        event is ReloadExited || event is Failed,
    ensures
        publish_step(PublishStage::AwaitingReload, event, config).0 == PublishStage::Done,
        publish_step(PublishStage::AwaitingReload, event, config).1 is Succeed,
{
}

/// Publishing runs from the trigger through the directory and the write to the
/// reload. It writes exactly the hosts file of the directory it was given, to the
/// place that the configuration names, and then has the resolver signalled.
pub proof fn lemma_publish_writes_the_hosts_file(
    servers: Seq<ServerModel>,
    clients: Seq<ClientConnectionModel>,
    config: ServerConfig,
)
    ensures
        publish_step(PublishStage::AwaitingTrigger, PublishEventModel::Triggered, config) == (
            PublishStage::AwaitingDirectory,
            PublishActionModel::LoadDirectory,
        ),
        publish_step(
            PublishStage::AwaitingDirectory,
            PublishEventModel::Directory { servers, clients },
            config,
        ) == (
            PublishStage::AwaitingWrite,
            PublishActionModel::WriteHosts {
                path: config.dns_hosts_file,
                text: dns_config(config.base_domain@, servers, clients),
            },
        ),
        publish_step(PublishStage::AwaitingWrite, PublishEventModel::Written, config) == (
            PublishStage::AwaitingReload,
            PublishActionModel::ReloadResolver { signal: "SIGHUP"@, process: "dnsmasq"@ },
        ),
{
}

/// Publishing never reports success before the hosts file is written: success is
/// only ever the answer to the outcome of the reload, and the reload is only ever
/// asked for as the answer to a finished write.
pub proof fn lemma_publish_succeeds_only_after_write(
    stage: PublishStage,
    event: PublishEventModel,
    config: ServerConfig,
)
    ensures
        publish_step(stage, event, config).1 is Succeed ==> stage == PublishStage::AwaitingReload,
        publish_step(stage, event, config).0 == PublishStage::AwaitingReload ==> stage
            == PublishStage::AwaitingWrite && event is Written,
{
}

/// Whether `stage` waits for `event`.
pub open spec fn publish_expects(stage: PublishStage, event: PublishEventModel) -> bool {
    match stage {
        PublishStage::AwaitingTrigger => event is Triggered,
        PublishStage::AwaitingDirectory => event is Directory || event is Failed,
        PublishStage::AwaitingWrite => event is Written || event is Failed,
        PublishStage::AwaitingReload => event is ReloadExited || event is Failed,
        PublishStage::Done => false,
    }
}

/// The number of events that publishing has behind it at `stage`.
pub open spec fn publish_progress(stage: PublishStage) -> nat {
    match stage {
        PublishStage::AwaitingTrigger => 0,
        PublishStage::AwaitingDirectory => 1,
        PublishStage::AwaitingWrite => 2,
        PublishStage::AwaitingReload => 3,
        PublishStage::Done => 4,
    }
}

/// Publishing fails only if the directory cannot be read, if the hosts file
/// cannot be written, or on an event out of turn.
pub proof fn lemma_publish_fails_only_before_the_reload(
    stage: PublishStage,
    event: PublishEventModel,
    config: ServerConfig,
)
    ensures
        publish_step(stage, event, config).1 == (PublishActionModel::Fail {
            error: PublishErrorModel::UnexpectedEvent,
        }) <==> !publish_expects(stage, event),
        publish_step(stage, event, config).1 matches PublishActionModel::Fail {
            error: PublishErrorModel::Directory { message },
        } ==> stage == PublishStage::AwaitingDirectory && event == (PublishEventModel::Failed {
            message,
        }),
        publish_step(stage, event, config).1 matches PublishActionModel::Fail {
            error: PublishErrorModel::Write { message },
        } ==> stage == PublishStage::AwaitingWrite && event == (PublishEventModel::Failed {
            message,
        }),
{
}

/// Every step moves publishing on, and publishing has ended exactly when the
/// action is a success or a failure. So it ends after four events at most, and
/// nothing is asked for twice.
pub proof fn lemma_every_publish_step_moves_on(
    stage: PublishStage,
    event: PublishEventModel,
    config: ServerConfig,
)
    ensures
        publish_step(stage, event, config).0 == PublishStage::Done || publish_progress(
            publish_step(stage, event, config).0,
        ) == publish_progress(stage) + 1,
        publish_step(stage, event, config).0 == PublishStage::Done <==> publish_step(
            stage,
            event,
            config,
        ).1 is Succeed || publish_step(stage, event, config).1 is Fail,
{
}

} // verus!
