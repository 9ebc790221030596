//! Store behaviour through the management client: round trip, uniqueness,
//! partial update, deletion.

use sshield::db;
use sshield::errors::Error;
use sshield::socket::Client;

fn fresh_client() -> Client {
    Client::init(":memory:").expect("in-memory store must open")
}

#[test]
fn round_trip_preserves_fields_and_derives_pubkey() {
    let mut client = fresh_client();
    assert!(client.gen_key("github", "alice", "github.com", 2222));
    let pk = client.show_key("github").expect("inserted key must be readable");
    assert_eq!(pk.nickname, "github");
    assert_eq!(pk.user, "alice");
    assert_eq!(pk.host, "github.com");
    assert_eq!(pk.port, 2222);
    assert_eq!(pk.cipher, "ssh-ed25519");
    let derived = russh_keys::PublicKeyBase64::public_key_base64(&pk.keypair);
    assert_eq!(pk.pubkey, derived);
    assert!(!pk.pubkey.is_empty());
}

#[test]
fn round_trip_default_port() {
    let mut client = fresh_client();
    assert!(client.gen_key("plain", "bob", "example.org", 22));
    let pk = client.show_key("plain").unwrap();
    assert_eq!(pk.port, 22);
}

#[test]
fn duplicate_nickname_fails_and_keeps_original() {
    let mut client = fresh_client();
    assert!(client.gen_key("work", "alice", "one.example", 22));
    let before = client.show_key("work").unwrap();
    assert!(!client.gen_key("work", "mallory", "two.example", 2022));
    let after = client.show_key("work").unwrap();
    assert_eq!(after.user, "alice");
    assert_eq!(after.host, "one.example");
    assert_eq!(after.port, 22);
    assert_eq!(after.pubkey, before.pubkey);
}

#[test]
fn update_changes_only_the_host() {
    let mut client = fresh_client();
    assert!(client.gen_key("n", "alice", "old.example", 2222));
    let before = client.show_key("n").unwrap();
    assert!(client.update_key("n", &None, &Some("new.example".to_string()), &None, &None));
    let after = client.show_key("n").unwrap();
    assert_eq!(after.host, "new.example");
    assert_eq!(after.user, "alice");
    assert_eq!(after.port, 2222);
    assert_eq!(after.pubkey, before.pubkey);
}

#[test]
fn round_trip_keeps_the_largest_port() {
    let mut client = fresh_client();
    assert!(client.gen_key("edge", "u", "h", u16::MAX));
    assert_eq!(client.show_key("edge").unwrap().port, u16::MAX);
}

#[test]
fn update_of_user_and_port_keeps_the_host() {
    let mut client = fresh_client();
    assert!(client.gen_key("n", "alice", "keep.example", 22));
    assert!(client.update_key("n", &Some("carol".to_string()), &None, &Some(2022), &None));
    let after = client.show_key("n").unwrap();
    assert_eq!(after.user, "carol");
    assert_eq!(after.port, 2022);
    assert_eq!(after.host, "keep.example");
}

#[test]
fn update_missing_nickname_reports_no_change() {
    let mut client = fresh_client();
    assert!(!client.update_key("absent", &None, &Some("h".to_string()), &None, &None));
}

#[test]
fn update_rejects_the_regenerate_flag() {
    let mut client = fresh_client();
    assert!(client.gen_key("n", "alice", "h.example", 22));
    assert!(!client.update_key("n", &None, &Some("other.example".to_string()), &None, &Some(true)));
    let after = client.show_key("n").unwrap();
    assert_eq!(after.host, "h.example");
}

#[test]
fn delete_counts_rows_and_makes_get_fail() {
    let mut conn = db::open_db(":memory:").expect("open");
    let key = russh_keys::PrivateKey::random(
        &mut russh_keys::key::safe_rng(),
        russh_keys::Algorithm::Ed25519,
    )
    .unwrap();
    let blob = russh_keys::pkcs8::encode_pkcs8(&key).unwrap();
    assert!(db::insert_key(&mut conn, "gone", "alice", "h", 22, blob));
    assert_eq!(db::del_key(&mut conn, "gone"), Ok(1));
    match db::get_key(&conn, "gone") {
        Err(e) => assert_eq!(e, Error::NotFound),
        Ok(_) => panic!("deleted record must not be readable"),
    }
    assert_eq!(db::del_key(&mut conn, "gone"), Ok(0));
}

#[test]
fn delete_through_client() {
    let mut client = fresh_client();
    assert!(client.gen_key("n", "alice", "h", 22));
    assert!(client.delete_key("n"));
    match client.show_key("n") {
        Err(e) => assert_eq!(e, Error::NotFound),
        Ok(_) => panic!("deleted record must not be readable"),
    }
    assert!(!client.delete_key("n"));
}

#[test]
fn show_all_keys_lists_every_record() {
    let mut client = fresh_client();
    assert_eq!(client.show_all_keys().unwrap().len(), 0);
    assert!(client.gen_key("a", "u1", "h1", 22));
    assert!(client.gen_key("b", "u2", "h2", 23));
    let all = client.show_all_keys().unwrap();
    assert_eq!(all.len(), 2);
    let mut nicks: Vec<String> = all.iter().map(|k| k.nickname.clone()).collect();
    nicks.sort();
    assert_eq!(nicks, vec!["a".to_string(), "b".to_string()]);
}

#[test]
fn corrupt_blob_is_a_fatal_decode_error() {
    let mut conn = db::open_db(":memory:").unwrap();
    assert!(db::insert_key(&mut conn, "bad", "u", "h", 22, vec![1, 2, 3]));
    match db::get_key(&conn, "bad") {
        Err(e) => assert_eq!(e, Error::Decode),
        Ok(_) => panic!("a corrupt blob must not decode"),
    }
    match db::get_all_keys(&conn) {
        Err(e) => assert_eq!(e, Error::Decode),
        Ok(_) => panic!("a corrupt blob must fail the whole read"),
    }
}

#[test]
fn open_db_fails_on_an_unopenable_path() {
    match db::open_db("/nonexistent-dir/sub/keys.db3") {
        Err(e) => assert_eq!(e, Error::Storage),
        Ok(_) => panic!("opening under a missing directory must fail"),
    }
}
