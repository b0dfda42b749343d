use std::path::PathBuf;

use wireguard_manager::config::ServerConfig;
use wireguard_manager::schema::{Client, ClientConnection, Server};
use wireguard_manager::status::{
    network_status, NetworkStatus, NetworkStatusClient, NetworkStatusServer,
};

fn status_config(base_domain: &str) -> ServerConfig {
    ServerConfig {
        name: "eu1".to_string(),
        private_key: "key".to_string(),
        keepalive: None,
        device_name: "wg0".to_string(),
        config_path: PathBuf::from("/etc/wireguard/wg0.conf"),
        database_url: "postgres://localhost/wg".to_string(),
        base_domain: base_domain.to_string(),
        dns_hosts_file: PathBuf::from("/etc/hosts.d/overlay"),
        web_static_dir: PathBuf::from("/srv/www"),
    }
}

fn status_server(name: &str, last: u8) -> Server {
    Server {
        name: name.to_string(),
        subnet_addr: format!("10.0.{}.0", last),
        subnet_len: 24,
        address: format!("10.0.0.{}", last),
        public_address: format!("203.0.113.{}", last),
        public_port: 51820 + last as u16,
    }
}

fn status_connection(name: &str, server: &str, address: &str) -> ClientConnection {
    ClientConnection {
        client: Client { name: name.to_string() },
        server: server.to_string(),
        address: address.to_string(),
    }
}

#[test]
fn status_of_an_empty_directory() {
    let status = network_status(&[], &[], &status_config("net.example"));
    assert_eq!(
        status,
        NetworkStatus { servers: vec![], clients: vec![], base_domain: "net.example".to_string() }
    );
}

#[test]
fn status_repeats_every_field_of_a_server() {
    let status = network_status(&[status_server("eu1", 1)], &[], &status_config("net.example"));
    assert_eq!(
        status.servers,
        vec![NetworkStatusServer {
            name: "eu1".to_string(),
            subnet: "10.0.1.0".to_string(),
            subnet_len: 24,
            address: "10.0.0.1".to_string(),
            endpoint: "203.0.113.1".to_string(),
            endpoint_port: 51821,
        }]
    );
}

#[test]
fn status_repeats_every_field_of_a_client() {
    let clients = [status_connection("alice", "eu1", "10.0.1.5")];
    let status = network_status(&[], &clients, &status_config("net.example"));
    assert_eq!(
        status.clients,
        vec![NetworkStatusClient {
            name: "alice".to_string(),
            server: "eu1".to_string(),
            address: "10.0.1.5".to_string(),
        }]
    );
}

#[test]
fn status_has_as_many_entries_as_the_directory_in_its_order() {
    let servers = [status_server("zeta", 9), status_server("alpha", 1), status_server("mid", 5)];
    let clients = [
        status_connection("bob", "zeta", "10.0.9.2"),
        status_connection("alice", "alpha", "10.0.1.2"),
        status_connection("bob", "mid", "10.0.5.2"),
        status_connection("carol", "mid", "10.0.5.3"),
    ];
    let status = network_status(&servers, &clients, &status_config("vpn"));
    assert_eq!(status.servers.len(), 3);
    assert_eq!(status.clients.len(), 4);
    let names: Vec<&str> = status.servers.iter().map(|s| s.name.as_str()).collect();
    assert_eq!(names, vec!["zeta", "alpha", "mid"]);
    let addresses: Vec<&str> = status.clients.iter().map(|c| c.address.as_str()).collect();
    assert_eq!(addresses, vec!["10.0.9.2", "10.0.1.2", "10.0.5.2", "10.0.5.3"]);
    assert_eq!(status.base_domain, "vpn");
}

#[test]
fn status_shows_a_client_of_an_unknown_server() {
    let clients = [status_connection("ghost", "nowhere", "10.9.9.9")];
    let status = network_status(&[status_server("eu1", 1)], &clients, &status_config("vpn"));
    assert_eq!(status.clients.len(), 1);
    assert_eq!(status.clients[0].server, "nowhere");
}
