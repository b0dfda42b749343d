use std::path::PathBuf;

use wireguard_manager::config::ServerConfig;
use wireguard_manager::dns::{
    gen_clients_entries, gen_dns_config, gen_server_entries, update_dns, PublishAction,
    PublishError, PublishEvent, PublishStage, Reload, ADDRESS_WIDTH,
};
use wireguard_manager::schema::{Client, ClientConnection, Server};

fn dns_config_for(base_domain: &str) -> ServerConfig {
    ServerConfig {
        name: "eu1".to_string(),
        private_key: "key".to_string(),
        keepalive: Some(25),
        device_name: "wg0".to_string(),
        config_path: PathBuf::from("/etc/wireguard/wg0.conf"),
        database_url: "postgres://localhost/wg".to_string(),
        base_domain: base_domain.to_string(),
        dns_hosts_file: PathBuf::from("/etc/hosts.d/overlay"),
        web_static_dir: PathBuf::from("/srv/www"),
    }
}

fn dns_server(name: &str, address: &str) -> Server {
    Server {
        name: name.to_string(),
        subnet_addr: "10.0.1.0".to_string(),
        subnet_len: 24,
        address: address.to_string(),
        public_address: "203.0.113.7".to_string(),
        public_port: 51820,
    }
}

fn dns_client(name: &str, server: &str, address: &str) -> ClientConnection {
    ClientConnection {
        client: Client { name: name.to_string() },
        server: server.to_string(),
        address: address.to_string(),
    }
}

#[test]
fn hosts_file_of_one_server_and_one_client() {
    let config = dns_config_for("net.example");
    let servers = vec![dns_server("eu1", "10.0.0.1")];
    let clients = vec![dns_client("alice", "eu1", "10.0.1.5")];
    let text = gen_dns_config(&config, &servers, &clients);
    assert_eq!(
        text,
        "# Servers\n10.0.0.1             eu1.net.example\n\n# Clients\n10.0.1.5             alice.net.example\n"
    );
}

#[test]
fn hosts_file_of_an_empty_directory_has_only_the_headings() {
    let config = dns_config_for("net.example");
    assert_eq!(gen_server_entries(&config, &[]), "# Servers\n");
    assert_eq!(gen_clients_entries(&config, &[]), "\n# Clients\n");
    assert_eq!(gen_dns_config(&config, &[], &[]), "# Servers\n\n# Clients\n");
}

#[test]
fn server_entries_keep_the_order_of_the_directory() {
    let config = dns_config_for("vpn");
    let servers = vec![
        dns_server("zeta", "10.0.0.9"),
        dns_server("alpha", "10.0.0.1"),
        dns_server("mid", "10.0.0.5"),
    ];
    let text = gen_server_entries(&config, &servers);
    assert_eq!(
        text,
        "# Servers\n10.0.0.9             zeta.vpn\n10.0.0.1             alpha.vpn\n10.0.0.5             mid.vpn\n"
    );
}

#[test]
fn client_entries_keep_the_order_of_the_directory() {
    let config = dns_config_for("vpn");
    let clients = vec![
        dns_client("bob", "eu1", "10.0.1.200"),
        dns_client("alice", "us1", "10.0.2.5"),
    ];
    let text = gen_clients_entries(&config, &clients);
    assert_eq!(
        text,
        "\n# Clients\n10.0.1.200           bob.vpn\n10.0.2.5             alice.vpn\n"
    );
}

#[test]
fn the_name_starts_in_the_same_column_for_every_short_address() {
    let config = dns_config_for("d");
    for address in ["1.1.1.1", "10.20.30.40", "255.255.255.255", "::1"] {
        let text = gen_server_entries(&config, &[dns_server("n", address)]);
        let line = text.lines().nth(1).unwrap();
        assert_eq!(line.find("n.d"), Some(ADDRESS_WIDTH + 1));
        assert_eq!(&line[..address.len()], address);
        assert!(line[address.len()..ADDRESS_WIDTH + 1].chars().all(|c| c == ' '));
    }
}

#[test]
fn an_address_of_exactly_the_column_width_gets_one_blank() {
    let config = dns_config_for("d");
    let address = "2001:db8::1234:56:78";
    assert_eq!(address.len(), 20);
    let text = gen_server_entries(&config, &[dns_server("n", address)]);
    assert_eq!(text, "# Servers\n2001:db8::1234:56:78 n.d\n");
}

#[test]
fn a_long_address_is_written_in_full() {
    let config = dns_config_for("d");
    let address = "2001:db8:85a3:8d3:1319:8a2e:370:7348";
    let text = gen_clients_entries(&config, &[dns_client("c", "eu1", address)]);
    assert_eq!(text, "\n# Clients\n2001:db8:85a3:8d3:1319:8a2e:370:7348 c.d\n");
}

#[test]
fn an_empty_address_is_a_column_of_blanks() {
    let config = dns_config_for("d");
    let text = gen_server_entries(&config, &[dns_server("n", "")]);
    assert_eq!(text, format!("# Servers\n{} n.d\n", " ".repeat(20)));
}

#[test]
fn the_column_is_counted_in_characters() {
    let config = dns_config_for("d");
    let text = gen_server_entries(&config, &[dns_server("n", "äö")]);
    assert_eq!(text, format!("# Servers\näö{} n.d\n", " ".repeat(18)));
}

#[test]
fn a_client_of_an_unknown_server_is_still_written() {
    let config = dns_config_for("net.example");
    let servers = vec![dns_server("eu1", "10.0.0.1")];
    let clients = vec![dns_client("ghost", "nowhere", "10.9.9.9")];
    let text = gen_dns_config(&config, &servers, &clients);
    assert!(text.ends_with("\n# Clients\n10.9.9.9             ghost.net.example\n"));
}

#[test]
fn generating_twice_gives_the_same_bytes() {
    let config = dns_config_for("net.example");
    let servers = vec![dns_server("eu1", "10.0.0.1"), dns_server("us1", "10.0.0.2")];
    let clients = vec![dns_client("alice", "eu1", "10.0.1.5")];
    let first = gen_dns_config(&config, &servers, &clients);
    let second = gen_dns_config(&config, &servers.clone(), &clients.clone());
    assert_eq!(first.as_bytes(), second.as_bytes());
}

#[test]
fn the_hosts_file_depends_on_addresses_and_names_only() {
    let config = dns_config_for("net.example");
    let mut other = dns_server("eu1", "10.0.0.1");
    other.public_port = 1;
    other.subnet_len = 8;
    other.public_address = "198.51.100.1".to_string();
    assert_eq!(
        gen_server_entries(&config, &[dns_server("eu1", "10.0.0.1")]),
        gen_server_entries(&config, &[other])
    );
    assert_eq!(
        gen_clients_entries(&config, &[dns_client("a", "eu1", "10.0.1.1")]),
        gen_clients_entries(&config, &[dns_client("a", "us1", "10.0.1.1")])
    );
}

#[test]
fn publishing_runs_from_trigger_to_reload() {
    let config = dns_config_for("net.example");
    let (stage, action) = update_dns(PublishStage::AwaitingTrigger, PublishEvent::Triggered, &config);
    assert_eq!(stage, PublishStage::AwaitingDirectory);
    assert_eq!(action, PublishAction::LoadDirectory);

    let directory = PublishEvent::Directory {
        servers: vec![dns_server("eu1", "10.0.0.1")],
        clients: vec![dns_client("alice", "eu1", "10.0.1.5")],
    };
    let (stage, action) = update_dns(stage, directory, &config);
    assert_eq!(stage, PublishStage::AwaitingWrite);
    assert_eq!(
        action,
        PublishAction::WriteHosts {
            path: PathBuf::from("/etc/hosts.d/overlay"),
            text: "# Servers\n10.0.0.1             eu1.net.example\n\n# Clients\n10.0.1.5             alice.net.example\n"
                .to_string()
        }
    );

    let (stage, action) = update_dns(stage, PublishEvent::Written, &config);
    assert_eq!(stage, PublishStage::AwaitingReload);
    assert_eq!(
        action,
        PublishAction::ReloadResolver {
            signal: "SIGHUP".to_string(),
            process: "dnsmasq".to_string()
        }
    );

    let (stage, action) = update_dns(stage, PublishEvent::ReloadExited { code: Some(0) }, &config);
    assert_eq!(stage, PublishStage::Done);
    assert_eq!(action, PublishAction::Succeed { reload: Reload::Reloaded });
}

#[test]
fn the_hosts_file_goes_where_the_configuration_says() {
    let mut config = dns_config_for("vpn");
    config.dns_hosts_file = PathBuf::from("/var/lib/dnsmasq/hosts");
    let directory = PublishEvent::Directory { servers: vec![], clients: vec![] };
    let (stage, action) = update_dns(PublishStage::AwaitingDirectory, directory, &config);
    assert_eq!(stage, PublishStage::AwaitingWrite);
    assert_eq!(
        action,
        PublishAction::WriteHosts {
            path: PathBuf::from("/var/lib/dnsmasq/hosts"),
            text: "# Servers\n\n# Clients\n".to_string()
        }
    );
}

#[test]
fn publishing_succeeds_when_the_reload_reports_an_error() {
    let config = dns_config_for("net.example");
    let (stage, action) =
        update_dns(PublishStage::AwaitingReload, PublishEvent::ReloadExited { code: Some(1) }, &config);
    assert_eq!(stage, PublishStage::Done);
    assert_eq!(action, PublishAction::Succeed { reload: Reload::Refused { code: Some(1) } });
}

#[test]
fn publishing_succeeds_when_the_reload_is_killed() {
    let config = dns_config_for("net.example");
    let (stage, action) =
        update_dns(PublishStage::AwaitingReload, PublishEvent::ReloadExited { code: None }, &config);
    assert_eq!(stage, PublishStage::Done);
    assert_eq!(action, PublishAction::Succeed { reload: Reload::Refused { code: None } });
}

#[test]
fn publishing_succeeds_when_the_resolver_is_absent() {
    let config = dns_config_for("net.example");
    let event = PublishEvent::Failed { message: "No such file or directory".to_string() };
    let (stage, action) = update_dns(PublishStage::AwaitingReload, event, &config);
    assert_eq!(stage, PublishStage::Done);
    assert_eq!(
        action,
        PublishAction::Succeed {
            reload: Reload::Unavailable { message: "No such file or directory".to_string() }
        }
    );
}

#[test]
fn publishing_fails_when_the_directory_cannot_be_read() {
    let config = dns_config_for("net.example");
    let event = PublishEvent::Failed { message: "connection refused".to_string() };
    let (stage, action) = update_dns(PublishStage::AwaitingDirectory, event, &config);
    assert_eq!(stage, PublishStage::Done);
    assert_eq!(
        action,
        PublishAction::Fail {
            error: PublishError::Directory { message: "connection refused".to_string() }
        }
    );
}

#[test]
fn publishing_fails_when_the_file_cannot_be_written() {
    let config = dns_config_for("net.example");
    let event = PublishEvent::Failed { message: "permission denied".to_string() };
    let (stage, action) = update_dns(PublishStage::AwaitingWrite, event, &config);
    assert_eq!(stage, PublishStage::Done);
    assert_eq!(
        action,
        PublishAction::Fail { error: PublishError::Write { message: "permission denied".to_string() } }
    );
}

#[test]
fn publishing_refuses_an_event_out_of_turn() {
    let config = dns_config_for("net.example");
    let unexpected = PublishAction::Fail { error: PublishError::UnexpectedEvent };
    let out_of_turn = [
        (PublishStage::AwaitingTrigger, PublishEvent::Written),
        (PublishStage::AwaitingTrigger, PublishEvent::Failed { message: String::new() }),
        (PublishStage::AwaitingDirectory, PublishEvent::Triggered),
        (PublishStage::AwaitingWrite, PublishEvent::ReloadExited { code: Some(0) }),
        (PublishStage::AwaitingReload, PublishEvent::Written),
        (PublishStage::Done, PublishEvent::Triggered),
        (PublishStage::Done, PublishEvent::ReloadExited { code: Some(0) }),
    ];
    for (stage, event) in out_of_turn {
        let (next, action) = update_dns(stage, event, &config);
        assert_eq!(next, PublishStage::Done);
        assert_eq!(action, unexpected);
    }
}
