//! The records that the network directory hands out. They belong to the database;
//! this crate only reads them. Addresses are held in their text form.

use vstd::prelude::*;

verus! {

/// A node of the overlay network that relays traffic, identified by its name.
#[derive(Debug, Clone, PartialEq, Eq)]
pub struct Server {
    /// The unique name of the server.
    pub name: String,
    /// The address of the subnet that the server manages.
    pub subnet_addr: String,
    /// The length of the prefix of that subnet.
    pub subnet_len: u8,
    /// The address of the server inside the overlay.
    pub address: String,
    /// The address at which peers reach the server.
    pub public_address: String,
    /// The port at which peers reach the server.
    pub public_port: u16,
}

/// A peer of the overlay network.
#[derive(Debug, Clone, PartialEq, Eq)]
pub struct Client {
    /// The name of the client.
    pub name: String,
}

/// The attachment of a client to one server, with the address it has there.
#[derive(Debug, Clone, PartialEq, Eq)]
pub struct ClientConnection {
    /// The client that is attached.
    pub client: Client,
    /// The name of the server. Nothing here checks that such a server exists.
    pub server: String,
    /// The address of the client inside the overlay.
    pub address: String,
}

/// What a [`Server`] says.
pub struct ServerModel {
    pub name: Seq<char>,
    pub subnet_addr: Seq<char>,
    pub subnet_len: u8,
    pub address: Seq<char>,
    pub public_address: Seq<char>,
    pub public_port: u16,
}

/// What a [`ClientConnection`] says.
pub struct ClientConnectionModel {
    pub name: Seq<char>,
    pub server: Seq<char>,
    pub address: Seq<char>,
}

impl DeepView for Server {
    type V = ServerModel;

    open spec fn deep_view(&self) -> ServerModel {
        ServerModel {
            name: self.name@,
            subnet_addr: self.subnet_addr@,
            subnet_len: self.subnet_len,
            address: self.address@,
            public_address: self.public_address@,
            public_port: self.public_port,
        }
    }
}

impl DeepView for ClientConnection {
    type V = ClientConnectionModel;

    open spec fn deep_view(&self) -> ClientConnectionModel {
        ClientConnectionModel {
            name: self.client.name@,
            server: self.server@,
            address: self.address@,
        }
    }
}

} // verus!
