use std::path::PathBuf;

use wireguard_manager::config::ServerConfig;

fn sample_config() -> ServerConfig {
    ServerConfig {
        name: "eu1".to_string(),
        private_key: "cHJpdmF0ZQ==".to_string(),
        keepalive: None,
        device_name: "wg0".to_string(),
        config_path: PathBuf::from("/etc/wireguard/wg0.conf"),
        database_url: "postgres://localhost/wg".to_string(),
        base_domain: "net.example".to_string(),
        dns_hosts_file: PathBuf::from("/etc/hosts.d/overlay"),
        web_static_dir: PathBuf::from("/srv/www"),
    }
}

#[test]
fn a_cloned_config_equals_the_one_it_was_cloned_from() {
    let config = sample_config();
    let copy = config.clone();
    assert_eq!(copy, config);
    assert_eq!(copy.config_path, PathBuf::from("/etc/wireguard/wg0.conf"));
    assert_eq!(copy.dns_hosts_file, PathBuf::from("/etc/hosts.d/overlay"));
    assert_eq!(copy.web_static_dir, PathBuf::from("/srv/www"));
    assert_eq!(copy.keepalive, None);
}

#[test]
fn configs_differ_when_a_field_differs() {
    let config = sample_config();
    let mut other = config.clone();
    other.keepalive = Some(25);
    assert_ne!(other, config);
    let mut moved = config.clone();
    moved.web_static_dir = PathBuf::from("/srv/other");
    assert_ne!(moved, config);
}

#[test]
fn configs_are_ordered_by_name_first() {
    let config = sample_config();
    let mut later = config.clone();
    later.name = "us1".to_string();
    assert!(config < later);
}
