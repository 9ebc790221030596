//! Importing a key file, addressed through configuration bytes.

use sshield::socket::Client;

fn sample_key_pem() -> String {
    let key = russh_keys::PrivateKey::random(
        &mut russh_keys::key::safe_rng(),
        russh_keys::Algorithm::Ed25519,
    )
    .unwrap();
    let mut pem: Vec<u8> = Vec::new();
    russh_keys::encode_pkcs8_pem(&key, &mut pem).unwrap();
    String::from_utf8(pem).unwrap()
}

#[test]
fn import_reads_host_user_and_port_from_the_config() {
    let config = b"Host myhost\n  HostName example.com\n  User bob\n  Port 2200\n".to_vec();
    let key_text = sample_key_pem();
    let mut client = Client::init(":memory:").unwrap();
    assert!(client.import_key_from_file(None, "myhost", &config, &key_text));
    let pk = client.show_key("myhost").unwrap();
    assert_eq!(pk.user, "bob");
    assert_eq!(pk.host, "example.com");
    assert_eq!(pk.port, 2200);
}

#[test]
fn import_defaults_the_port_to_twenty_two() {
    let config = b"Host plain\n  HostName plain.example\n  User carol\n".to_vec();
    let key_text = sample_key_pem();
    let mut client = Client::init(":memory:").unwrap();
    assert!(client.import_key_from_file(None, "plain", &config, &key_text));
    let pk = client.show_key("plain").unwrap();
    assert_eq!(pk.port, 22);
}

#[test]
fn import_accepts_an_ecdsa_key() {
    let key = russh_keys::PrivateKey::random(
        &mut russh_keys::key::safe_rng(),
        russh_keys::Algorithm::Ecdsa { curve: russh_keys::EcdsaCurve::NistP256 },
    )
    .unwrap();
    let mut pem: Vec<u8> = Vec::new();
    russh_keys::encode_pkcs8_pem(&key, &mut pem).unwrap();
    let key_text = String::from_utf8(pem).unwrap();
    let config = b"Host ec\n  HostName ec.example\n  User dana\n".to_vec();
    let mut client = Client::init(":memory:").unwrap();
    assert!(client.import_key_from_file(None, "ec", &config, &key_text));
    let pk = client.show_key("ec").unwrap();
    assert_eq!(pk.cipher, "ecdsa-sha2-nistp256");
    let derived = russh_keys::PublicKeyBase64::public_key_base64(&pk.keypair);
    assert_eq!(pk.pubkey, derived);
}

#[test]
fn import_fails_without_a_configured_user() {
    let config = b"Host nouser\n  HostName nouser.example\n".to_vec();
    let key_text = sample_key_pem();
    let mut client = Client::init(":memory:").unwrap();
    assert!(!client.import_key_from_file(None, "nouser", &config, &key_text));
}

#[test]
fn import_fails_on_an_unreadable_key() {
    let config = b"Host h\n  HostName h.example\n  User u\n".to_vec();
    let mut client = Client::init(":memory:").unwrap();
    assert!(!client.import_key_from_file(None, "h", &config, "not a key at all"));
}

#[test]
fn import_fails_on_a_duplicate_nickname() {
    let config = b"Host dup\n  HostName dup.example\n  User u\n".to_vec();
    let key_text = sample_key_pem();
    let mut client = Client::init(":memory:").unwrap();
    assert!(client.gen_key("dup", "u", "dup.example", 22));
    assert!(!client.import_key_from_file(None, "dup", &config, &key_text));
}
