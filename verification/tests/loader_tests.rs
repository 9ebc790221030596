//! The bootstrap loader against the agent identity model.

use sshield::db::ProcessedKey;
use sshield::loader::{bootstrap, AgentIdentities};

fn sample_key(nick: &str, user: &str, host: &str, port: u16) -> ProcessedKey {
    let keypair = russh_keys::PrivateKey::random(
        &mut russh_keys::key::safe_rng(),
        russh_keys::Algorithm::Ed25519,
    )
    .unwrap();
    let pubkey = russh_keys::PublicKeyBase64::public_key_base64(&keypair);
    ProcessedKey {
        nickname: nick.to_string(),
        user: user.to_string(),
        host: host.to_string(),
        port,
        keypair,
        pubkey,
        cipher: "ssh-ed25519".to_string(),
    }
}

#[test]
fn bootstrap_registers_every_record() {
    let records = vec![
        sample_key("a", "u1", "h1", 22),
        sample_key("b", "u2", "h2", 23),
    ];
    let mut agent = AgentIdentities::new();
    bootstrap(&mut agent, &records);
    assert!(agent.contains(&records[0].pubkey));
    assert!(agent.contains(&records[1].pubkey));
}

#[test]
fn bootstrap_twice_keeps_every_record_present() {
    let records = vec![
        sample_key("a", "u1", "h1", 22),
        sample_key("b", "u2", "h2", 23),
    ];
    let mut agent = AgentIdentities::new();
    bootstrap(&mut agent, &records);
    bootstrap(&mut agent, &records);
    assert!(agent.contains(&records[0].pubkey));
    assert!(agent.contains(&records[1].pubkey));
}

#[test]
fn duplicate_add_is_accepted() {
    let record = sample_key("a", "u", "h", 22);
    let mut agent = AgentIdentities::new();
    agent.add_identity(&record.pubkey);
    agent.add_identity(&record.pubkey);
    assert!(agent.contains(&record.pubkey));
}

#[test]
fn missing_key_is_not_reported_present() {
    let record = sample_key("a", "u", "h", 22);
    let other = sample_key("b", "u", "h", 22);
    let mut agent = AgentIdentities::new();
    agent.add_identity(&record.pubkey);
    assert!(!agent.contains(&other.pubkey));
}
