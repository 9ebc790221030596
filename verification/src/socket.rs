//! The management client over the key-record store.
//!
//! A `Client` owns the store connection for the duration of one command and
//! carries every synchronous management operation: generating, importing,
//! showing, updating and deleting records. Serving-mode plumbing — the
//! agent socket, the listener, the loopback injection of identities — runs
//! in the binary around the library, against the loader and lifecycle
//! models next door.

use vstd::prelude::*;

use crate::db::{
    coalesce, db_recs, get_all_keys, get_key, insert_key, keys_cover, open_db, opt_str_view,
    pk_nick, processed_matches, some_undecodable, update_key as db_update_key, del_key,
    ProcessedKey,
};
use crate::errors::Error;
use crate::keys::{
    blob_decodes, cipher_of, decode_secret_key_text, encode_private_key, fresh_ed25519_blob,
};

verus! {

/// Queries the configuration bytes for a host block matching the nickname:
/// host name, user and port, each only if configured, or nothing when the
/// bytes do not parse.
///
/// Relies on ssh2_config `SshConfig::parse` under strict rules and
/// `SshConfig::query` only for the shape of the result. Nothing is assumed
/// of its value: an `Include` directive makes the parser read further files
/// from disk, so neither parse success nor the looked-up fields are a
/// function of the bytes and the pattern alone.
#[verifier::external_body]
fn query_ssh_config(cfg: &Vec<u8>, nick: &str) -> (r: Option<(
    Option<String>,
    Option<String>,
    Option<u16>,
)>) {
    let config = match ssh2_config::SshConfig::default()
        .parse(&mut cfg.as_slice(), ssh2_config::ParseRule::STRICT)
    {
        Ok(c) => c,
        Err(_) => return None,
    };
    let params = config.query(nick);
    Some((params.host_name, params.user, params.port))
}

/// The port an imported record gets: the configured one, or the default of
/// 22 when the configuration names none.
pub open spec fn port_or_default(port: Option<u16>) -> u16 {
    match port {
        Option::Some(p) => p,
        Option::None => 22,
    }
}

/// The management handle: one open store connection, held for the duration
/// of the active command.
pub struct Client {
    conn: rusqlite::Connection,
}

impl Client {
    /// The records behind this handle, as the store model sees them.
    pub closed spec fn recs(self) -> Map<Seq<char>, (Seq<char>, Seq<char>, u16, Seq<u8>)> {
        db_recs(self.conn)
    }

    /// Opens the store at the given path, creating the schema when absent.
    pub fn init(db_path: &str) -> (r: Result<Client, Error>)
        ensures
            r matches Err(e) ==> e is Storage,
    {
        match open_db(db_path) {
            Ok(conn) => Ok(Client { conn }),
            Err(e) => Err(e),
        }
    }

    /// Generates a fresh ed25519 pair, encodes it and stores it under the
    /// nickname: the new record's blob decodes, and decodes to an ed25519
    /// key. False on a duplicate nickname or any failure along the way, and
    /// then nothing has changed.
    pub fn gen_key(&mut self, nick: &str, user: &str, host: &str, port: u16) -> (r: bool)
        ensures
            r ==> !old(self).recs().contains_key(nick@) && (exists|b: Seq<u8>|
                blob_decodes(b) && cipher_of(b) == "ssh-ed25519"@ && final(self).recs() == old(
                    self,
                ).recs().insert(nick@, (user@, host@, port, b))),
            !r ==> final(self).recs() == old(self).recs(),
            old(self).recs().contains_key(nick@) ==> !r,
    {
        let ghost prior = self.recs();
        let blob = match fresh_ed25519_blob() {
            Some(b) => b,
            None => {
                return false;
            },
        };
        let ghost b = blob@;
        let r = insert_key(&mut self.conn, nick, user, host, port, blob);
        proof {
            if r {
                assert(blob_decodes(b) && cipher_of(b) == "ssh-ed25519"@ && self.recs()
                    == prior.insert(nick@, (user@, host@, port, b)));
            }
        }
        r
    }

    /// Stores one imported key under the nickname, given the host block the
    /// configuration lookup yielded and the decoded key: the record carries
    /// the configured user and host, the configured port or 22, and the
    /// key's encoded blob. False on a duplicate nickname, an unencodable
    /// key or a storage failure, and then nothing has changed.
    pub fn store_imported_key(
        &mut self,
        nick: &str,
        user: &str,
        host: &str,
        port: Option<u16>,
        key: &russh_keys::PrivateKey,
    ) -> (r: bool)
        ensures
            r ==> !old(self).recs().contains_key(nick@) && (exists|b: Seq<u8>|
                blob_decodes(b) && final(self).recs() == old(self).recs().insert(
                    nick@,
                    (user@, host@, port_or_default(port), b),
                )),
            !r ==> final(self).recs() == old(self).recs(),
            old(self).recs().contains_key(nick@) ==> !r,
    {
        let ghost prior = self.recs();
        let blob = match encode_private_key(key) {
            Some(b) => b,
            None => {
                return false;
            },
        };
        let p: u16 = match port {
            Some(p) => p,
            None => 22,
        };
        let ghost b = blob@;
        let r = insert_key(&mut self.conn, nick, user, host, p, blob);
        proof {
            if r {
                assert(blob_decodes(b) && self.recs() == prior.insert(
                    nick@,
                    (user@, host@, port_or_default(port), b),
                ));
            }
        }
        r
    }

    /// Imports a key read from a key file, addressed by the host block the
    /// configuration bytes hold for the nickname. The configured host and
    /// user are required; the port falls back to 22. On success the store
    /// gained exactly one record under the nickname, with a decodable blob;
    /// which fields it carries is the configuration lookup's outcome, which
    /// may read beyond the given bytes, so no more is claimed of it. False
    /// on any failure, and then nothing has changed.
    pub fn import_key_from_file(
        &mut self,
        pass: Option<&str>,
        nick: &str,
        ssh_config: &Vec<u8>,
        key_text: &str,
    ) -> (r: bool)
        ensures
            r ==> !old(self).recs().contains_key(nick@) && (exists|
                u: Seq<char>,
                h: Seq<char>,
                p: u16,
                b: Seq<u8>,
            |
                blob_decodes(b) && final(self).recs() == old(self).recs().insert(
                    nick@,
                    (u, h, p, b),
                )),
            !r ==> final(self).recs() == old(self).recs(),
            old(self).recs().contains_key(nick@) ==> !r,
    {
        let parsed = match query_ssh_config(ssh_config, nick) {
            Some(t) => t,
            None => {
                return false;
            },
        };
        let host = match parsed.0 {
            Some(h) => h,
            None => {
                return false;
            },
        };
        let user = match parsed.1 {
            Some(u) => u,
            None => {
                return false;
            },
        };
        let key = match decode_secret_key_text(key_text, pass) {
            Some(k) => k,
            None => {
                return false;
            },
        };
        self.store_imported_key(nick, user.as_str(), host.as_str(), parsed.2, &key)
    }

    /// Reads the record under a nickname, decoded. An unknown nickname is
    /// the not-found error; a record whose blob does not decode is the
    /// decode error; a record that is present and sound can only be hidden
    /// by a storage failure.
    pub fn show_key(&self, nick: &str) -> (r: Result<ProcessedKey, Error>)
        ensures
            r matches Ok(pk) ==> pk.nickname@ == nick@ && processed_matches(self.recs(), pk),
            r matches Err(e) ==> e is NotFound ==> !self.recs().contains_key(nick@),
            !self.recs().contains_key(nick@) ==> r is Err,
            r matches Err(e) ==> e is Decode ==> self.recs().contains_key(nick@) && !blob_decodes(
                self.recs()[nick@].3,
            ),
            r matches Err(e) ==> self.recs().contains_key(nick@) && blob_decodes(
                self.recs()[nick@].3,
            ) ==> e is Storage,
    {
        get_key(&self.conn, nick)
    }

    /// Applies a partial update to the record under a nickname; an absent
    /// field keeps its prior value. True exactly when a record changed; on
    /// false nothing has changed. A request carrying the upstream
    /// regenerate flag is rejected untouched.
    pub fn update_key(
        &mut self,
        nick: &str,
        user: &Option<String>,
        host: &Option<String>,
        port: &Option<u16>,
        genkey: &Option<bool>,
    ) -> (r: bool)
        ensures
            r ==> old(self).recs().contains_key(nick@) && final(self).recs() == old(
                self,
            ).recs().insert(
                nick@,
                coalesce(
                    old(self).recs()[nick@],
                    opt_str_view(*user),
                    opt_str_view(*host),
                    *port,
                ),
            ),
            !r ==> final(self).recs() == old(self).recs(),
            !old(self).recs().contains_key(nick@) ==> !r,
            genkey matches Some(true) ==> !r,
    {
        match db_update_key(&mut self.conn, nick, user, host, port, genkey) {
            Ok(n) => n != 0,
            Err(_) => false,
        }
    }

    /// Deletes the record under a nickname. True exactly when a record
    /// existed and is now gone; on false nothing has changed.
    pub fn delete_key(&mut self, nick: &str) -> (r: bool)
        ensures
            r ==> old(self).recs().contains_key(nick@) && final(self).recs() == old(
                self,
            ).recs().remove(nick@),
            !r ==> final(self).recs() == old(self).recs(),
            !old(self).recs().contains_key(nick@) ==> !r,
    {
        let ghost prior = self.recs();
        let r = match del_key(&mut self.conn, nick) {
            Ok(n) => n != 0,
            Err(_) => false,
        };
        proof {
            if !r {
                assert(self.recs() =~= prior);
            }
        }
        r
    }

    /// Reads every record, decoded: what the bootstrap loader injects. A
    /// decode error is only ever reported over a record whose stored blob
    /// really does not decode.
    pub fn show_all_keys(&self) -> (r: Result<Vec<ProcessedKey>, Error>)
        ensures
            r matches Ok(v) ==> forall|i: int|
                0 <= i < v@.len() ==> #[trigger] processed_matches(self.recs(), v@[i]),
            r matches Ok(v) ==> keys_cover(self.recs(), v@),
            r matches Ok(v) ==> forall|i: int, j: int|
                0 <= i < j < v@.len() ==> #[trigger] pk_nick(v@[i]) != #[trigger] pk_nick(v@[j]),
            r matches Err(e) ==> e is Decode ==> some_undecodable(self.recs()),
    {
        get_all_keys(&self.conn)
    }
}

} // verus!
