//! The network-status document: every server and every client connection of the
//! overlay, with addresses as text, in the order in which the directory gave them.

use crate::config::ServerConfig;
use crate::schema::{ClientConnection, ClientConnectionModel, Server, ServerModel};
use vstd::prelude::*;

verus! {

/// One server, as the status document shows it.
#[derive(Debug, Clone, PartialEq, Eq)]
pub struct NetworkStatusServer {
    pub name: String,
    pub subnet: String,
    pub subnet_len: u8,
    pub address: String,
    pub endpoint: String,
    pub endpoint_port: u16,
}

/// One client connection, as the status document shows it.
#[derive(Debug, Clone, PartialEq, Eq)]
pub struct NetworkStatusClient {
    pub name: String,
    pub server: String,
    pub address: String,
}

/// The status document. Its fields are declared in the order in which they are
/// written out.
#[derive(Debug, Clone, PartialEq, Eq)]
pub struct NetworkStatus {
    pub servers: Vec<NetworkStatusServer>,
    pub clients: Vec<NetworkStatusClient>,
    pub base_domain: String,
}

/// What a [`NetworkStatusServer`] says.
pub struct NetworkStatusServerModel {
    pub name: Seq<char>,
    pub subnet: Seq<char>,
    pub subnet_len: u8,
    pub address: Seq<char>,
    pub endpoint: Seq<char>,
    pub endpoint_port: u16,
}

/// What a [`NetworkStatusClient`] says.
pub struct NetworkStatusClientModel {
    pub name: Seq<char>,
    pub server: Seq<char>,
    pub address: Seq<char>,
}

/// What a [`NetworkStatus`] says.
pub struct NetworkStatusModel {
    pub servers: Seq<NetworkStatusServerModel>,
    pub clients: Seq<NetworkStatusClientModel>,
    pub base_domain: Seq<char>,
}

impl DeepView for NetworkStatusServer {
    type V = NetworkStatusServerModel;

    open spec fn deep_view(&self) -> NetworkStatusServerModel {
        NetworkStatusServerModel {
            name: self.name@,
            subnet: self.subnet@,
            subnet_len: self.subnet_len,
            address: self.address@,
            endpoint: self.endpoint@,
            endpoint_port: self.endpoint_port,
        }
    }
}

impl DeepView for NetworkStatusClient {
    type V = NetworkStatusClientModel;

    open spec fn deep_view(&self) -> NetworkStatusClientModel {
        NetworkStatusClientModel { name: self.name@, server: self.server@, address: self.address@ }
    }
}

impl DeepView for NetworkStatus {
    type V = NetworkStatusModel;

    open spec fn deep_view(&self) -> NetworkStatusModel {
        NetworkStatusModel {
            servers: self.servers.deep_view(),
            clients: self.clients.deep_view(),
            base_domain: self.base_domain@,
        }
    }
}

/// The status entry of a server: its name, its subnet, its overlay address and the
/// endpoint at which peers reach it.
pub open spec fn server_status(server: ServerModel) -> NetworkStatusServerModel {
    NetworkStatusServerModel {
        name: server.name,
        subnet: server.subnet_addr,
        subnet_len: server.subnet_len,
        address: server.address,
        endpoint: server.public_address,
        endpoint_port: server.public_port,
    }
}

/// The status entry of a client connection. The server name is shown as the
/// connection has it, whether or not a server of that name is known.
pub open spec fn client_status(connection: ClientConnectionModel) -> NetworkStatusClientModel {
    NetworkStatusClientModel {
        name: connection.name,
        server: connection.server,
        address: connection.address,
    }
}

/// The status document of a directory snapshot: one entry per server and one per
/// client connection, each list in the order of the snapshot.
pub open spec fn status_of(
    servers: Seq<ServerModel>,
    clients: Seq<ClientConnectionModel>,
    base_domain: Seq<char>,
) -> NetworkStatusModel {
    NetworkStatusModel {
        servers: Seq::new(servers.len(), |i: int| server_status(servers[i])),
        clients: Seq::new(clients.len(), |i: int| client_status(clients[i])),
        base_domain,
    }
}

fn status_servers(servers: &[Server]) -> (entries: Vec<NetworkStatusServer>)
    ensures
        entries.deep_view() == Seq::new(
            servers.deep_view().len(),
            |i: int| server_status(servers.deep_view()[i]),
        ),
{
    let mut entries: Vec<NetworkStatusServer> = Vec::new();
    let mut i: usize = 0;
    while i < servers.len()
        invariant
            i <= servers.len(),
            entries.len() == i,
            forall|k: int|
                0 <= k < i ==> (#[trigger] entries[k]).deep_view() == server_status(
                    servers[k].deep_view(),
                ),
        decreases servers.len() - i,
    {
        let server = &servers[i];
        entries.push(
            NetworkStatusServer {
                name: server.name.clone(),
                subnet: server.subnet_addr.clone(),
                subnet_len: server.subnet_len,
                address: server.address.clone(),
                endpoint: server.public_address.clone(),
                endpoint_port: server.public_port,
            },
        );
        i += 1;
    }
    entries
}

fn status_clients(clients: &[ClientConnection]) -> (entries: Vec<NetworkStatusClient>)
    ensures
        entries.deep_view() == Seq::new(
            clients.deep_view().len(),
            |i: int| client_status(clients.deep_view()[i]),
        ),
{
    let mut entries: Vec<NetworkStatusClient> = Vec::new();
    let mut i: usize = 0;
    while i < clients.len()
        invariant
            i <= clients.len(),
            entries.len() == i,
            forall|k: int|
                0 <= k < i ==> (#[trigger] entries[k]).deep_view() == client_status(
                    clients[k].deep_view(),
                ),
        decreases clients.len() - i,
    {
        let connection = &clients[i];
        entries.push(
            NetworkStatusClient {
                name: connection.client.name.clone(),
                server: connection.server.clone(),
                address: connection.address.clone(),
            },
        );
        i += 1;
    }
    entries
}

/// Builds the status document from all servers and all client connections.
///
/// The document has as many servers and clients as the directory gave, in the
/// same order, and each entry repeats the fields of its record.
pub fn network_status(
    servers: &[Server],
    clients: &[ClientConnection],
    config: &ServerConfig,
) -> (status: NetworkStatus)
    ensures
        status.deep_view() == status_of(
            servers.deep_view(),
            clients.deep_view(),
            config.base_domain@,
        ),
        status.servers.len() == servers.len(),
        status.clients.len() == clients.len(),
        forall|i: int|
            0 <= i < servers.len() ==> (#[trigger] status.servers[i]).deep_view() == server_status(
                servers[i].deep_view(),
            ),
        forall|i: int|
            0 <= i < clients.len() ==> (#[trigger] status.clients[i]).deep_view() == client_status(
                clients[i].deep_view(),
            ),
{
    let status = NetworkStatus {
        servers: status_servers(servers),
        clients: status_clients(clients),
        base_domain: config.base_domain.clone(),
    };
    assert(status.servers.deep_view().len() == status.servers.len());
    assert(status.clients.deep_view().len() == status.clients.len());
    assert forall|i: int| 0 <= i < servers.len() implies (#[trigger] status.servers[i]).deep_view()
        == server_status(servers[i].deep_view()) by {
        assert(status.servers.deep_view()[i] == server_status(servers.deep_view()[i]));
    }
    assert forall|i: int| 0 <= i < clients.len() implies (#[trigger] status.clients[i]).deep_view()
        == client_status(clients[i].deep_view()) by {
        assert(status.clients.deep_view()[i] == client_status(clients.deep_view()[i]));
    }
    status
}

} // verus!
