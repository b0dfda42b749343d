//! The private configuration of a server.

use std::path::PathBuf;
use vstd::prelude::*;

verus! {

/// `std::path::PathBuf`, carried through the configuration as an opaque value:
/// nothing in this crate looks inside a path held in this form.
#[verifier::external_type_specification]
#[verifier::external_body]
pub struct ExPathBuf(PathBuf);

/// `<PathBuf as Clone>::clone`: the copy is the same path as the one that was copied.
pub assume_specification[ <PathBuf as Clone>::clone ](path: &PathBuf) -> (res: PathBuf)
    ensures
        res == *path,
;

/// The private configuration of a server. It is built once, when the process starts,
/// and handed by reference to whatever needs it; nothing here changes it afterwards.
#[derive(Debug, Eq, Ord, PartialOrd, PartialEq)]
pub struct ServerConfig {
    /// The name of the server, there must be an entry in the database with the same name.
    pub name: String,
    /// The private key of the server.
    pub private_key: String,
    /// An optional keep-alive to use for every peer.
    pub keepalive: Option<u32>,
    /// The name of the network device to create.
    pub device_name: String,
    /// The path where to store the configuration file.
    pub config_path: PathBuf,
    /// The connection string to the database.
    pub database_url: String,
    /// The DNS suffix appended to every generated host name.
    pub base_domain: String,
    /// The hosts file that the DNS resolver reads.
    pub dns_hosts_file: PathBuf,
    /// The directory below which static files are served.
    pub web_static_dir: PathBuf,
}

impl Clone for ServerConfig {
    fn clone(&self) -> (res: Self)
        ensures
            res == *self,
    {
        ServerConfig {
            name: self.name.clone(),
            private_key: self.private_key.clone(),
            keepalive: self.keepalive,
            device_name: self.device_name.clone(),
            config_path: self.config_path.clone(),
            database_url: self.database_url.clone(),
            base_domain: self.base_domain.clone(),
            dns_hosts_file: self.dns_hosts_file.clone(),
            web_static_dir: self.web_static_dir.clone(),
        }
    }
}

} // verus!
