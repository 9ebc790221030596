//! The privilege-separation profiles and the once-per-process rule.

use sshield::cli::Command;
use sshield::sandbox::{management_profile, profile_for, serving_profile, Supervisor};

#[test]
fn management_profile_denies_all_networking() {
    let p = management_profile();
    assert!(!p.unix_servers);
    assert!(!p.unix_clients);
    assert!(!p.tcp_clients);
    assert!(p.local_file_io);
    assert!(!p.broad_file_io);
    assert!(!p.thread_create);
}

#[test]
fn serving_profile_allows_sockets_and_threads() {
    let p = serving_profile();
    assert!(p.unix_servers);
    assert!(p.unix_clients);
    assert!(p.tcp_clients);
    assert!(p.thread_create);
    assert!(p.broad_file_io);
}

#[test]
fn serving_paths_get_the_serving_profile() {
    assert_eq!(profile_for(&Command::Serve {}), serving_profile());
    assert_eq!(profile_for(&Command::AddKeysToServer {}), serving_profile());
}

#[test]
fn management_paths_get_the_management_profile() {
    let commands = [
        Command::GenKey {
            name: "n".to_string(),
            user: "u".to_string(),
            host: "h".to_string(),
            port: 22,
        },
        Command::ShowKey { name: None },
        Command::DeleteKey { name: "n".to_string() },
        Command::UpdateKey {
            name: "n".to_string(),
            user: None,
            host: None,
            port: None,
            genkey: None,
        },
        Command::ImportKey { name: "n".to_string(), path: "/k".to_string(), pass: None },
        Command::ChangePassword {},
    ];
    for cmd in commands {
        assert_eq!(profile_for(&cmd), management_profile());
    }
}

#[test]
fn installation_happens_exactly_once() {
    let mut sup = Supervisor::new();
    assert!(sup.install());
    assert!(!sup.install());
    assert!(!sup.install());
}
