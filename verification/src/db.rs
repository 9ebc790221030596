//! The persistent key-record store.
//!
//! Records live in a single-file relational store, one row per nickname, the
//! nickname being the primary key. The store is deliberately dumb: it holds
//! the encoded key as an opaque blob and never inspects cryptographic
//! content. Decoding happens on read, and a blob that fails to decode is a
//! fatal condition for that record, never silently skipped.
//!
//! The contracts model the table as a map from nickname to the remaining
//! columns, written `db_recs`. A connection owns its store for the duration
//! of a command, so the map changes only through the statements below.

use vstd::prelude::*;
use vstd::string::StringExecFns;

use crate::errors::Error;
use crate::keys::{blob_decodes, cipher_of, decode_stored_blob, pubkey_of};

verus! {

#[verifier::external_type_specification]
#[verifier::external_body]
pub struct ExConnection(rusqlite::Connection);

/// The rows of the `keys` table behind a connection: nickname to
/// (user, host, port, encoded key). A missing table reads as the empty map.
pub uninterp spec fn db_recs(c: rusqlite::Connection) -> Map<
    Seq<char>,
    (Seq<char>, Seq<char>, u16, Seq<u8>),
>;

/// A record's columns after an update that carries these optional fields:
/// an absent field keeps its prior value, and the key material is never
/// touched.
pub open spec fn coalesce(
    rec: (Seq<char>, Seq<char>, u16, Seq<u8>),
    user: Option<Seq<char>>,
    host: Option<Seq<char>>,
    port: Option<u16>,
) -> (Seq<char>, Seq<char>, u16, Seq<u8>) {
    (
        match user {
            Option::Some(u) => u,
            Option::None => rec.0,
        },
        match host {
            Option::Some(h) => h,
            Option::None => rec.1,
        },
        match port {
            Option::Some(p) => p,
            Option::None => rec.2,
        },
        rec.3,
    )
}

/// The view of an optional owned string.
pub open spec fn opt_str_view(o: Option<String>) -> Option<Seq<char>> {
    match o {
        Option::Some(s) => Option::Some(s@),
        Option::None => Option::None,
    }
}

/// A row as read from the store, still carrying the encoded blob.
pub struct RawKey {
    pub nickname: String,
    pub user: String,
    pub host: String,
    pub port: u16,
    pub encoded_key: Vec<u8>,
}

/// A row handed back by the store, as it stands in the table.
pub open spec fn row_matches(
    m: Map<Seq<char>, (Seq<char>, Seq<char>, u16, Seq<u8>)>,
    t: RawKey,
) -> bool {
    &&& m.contains_key(t.nickname@)
    &&& m[t.nickname@] == (t.user@, t.host@, t.port, t.encoded_key@)
}

/// The nickname column of a row.
pub open spec fn row_nick(t: RawKey) -> Seq<char> {
    t.nickname@
}

/// Every nickname of the table appears among the rows.
pub open spec fn rows_cover(
    m: Map<Seq<char>, (Seq<char>, Seq<char>, u16, Seq<u8>)>,
    v: Seq<RawKey>,
) -> bool {
    forall|n: Seq<char>|
        #[trigger] m.contains_key(n) ==> exists|i: int|
            0 <= i < v.len() && #[trigger] row_nick(v[i]) == n
}

/// Some stored record's blob is rejected by the key-encoding primitive.
pub open spec fn some_undecodable(m: Map<Seq<char>, (Seq<char>, Seq<char>, u16, Seq<u8>)>) -> bool {
    exists|n: Seq<char>| #[trigger] m.contains_key(n) && !blob_decodes(m[n].3)
}

/// Every nickname of the table appears among the processed records.
pub open spec fn keys_cover(
    m: Map<Seq<char>, (Seq<char>, Seq<char>, u16, Seq<u8>)>,
    v: Seq<ProcessedKey>,
) -> bool {
    forall|n: Seq<char>|
        #[trigger] m.contains_key(n) ==> exists|i: int|
            0 <= i < v.len() && #[trigger] pk_nick(v[i]) == n
}

/// Relies on rusqlite `Connection::open`: a handle on the store at that
/// path, whose current rows nothing here presumes to know.
#[verifier::external_body]
fn conn_open(path: &str) -> (r: Option<rusqlite::Connection>) {
    rusqlite::Connection::open(path).ok()
}

/// Relies on rusqlite `Connection::execute` with CREATE TABLE IF NOT
/// EXISTS: creating the schema never touches existing rows.
#[verifier::external_body]
fn exec_create_schema(conn: &mut rusqlite::Connection) -> (r: bool)
    ensures
        db_recs(*final(conn)) == db_recs(*old(conn)),
{
    conn.execute(
        "CREATE TABLE IF NOT EXISTS keys (
            nickname VARCHAR PRIMARY KEY,
            user VARCHAR,
            host VARCHAR,
            port INT,
            encoded_key BLOB
        )",
        (),
    ).is_ok()
}

/// Relies on rusqlite `Connection::execute` with a single-row INSERT: the
/// nickname is the table's primary key, so inserting a nickname already
/// present fails and changes nothing, and a successful insert adds exactly
/// the given row.
#[verifier::external_body]
fn exec_insert(
    conn: &mut rusqlite::Connection,
    nick: &str,
    user: &str,
    host: &str,
    port: u16,
    encoded_key: &Vec<u8>,
) -> (r: bool)
    ensures
        r ==> !db_recs(*old(conn)).contains_key(nick@) && db_recs(*final(conn)) == db_recs(
            *old(conn),
        ).insert(nick@, (user@, host@, port, encoded_key@)),
        !r ==> db_recs(*final(conn)) == db_recs(*old(conn)),
        db_recs(*old(conn)).contains_key(nick@) ==> !r,
{
    conn.execute(
        "INSERT INTO keys ( nickname, user, host, port, encoded_key ) VALUES (?1, ?2, ?3, ?4, ?5)",
        (nick, user, host, port, encoded_key.as_slice()),
    ).is_ok()
}

/// Relies on rusqlite `Connection::query_row` with a SELECT by primary key:
/// a returned row is the row under that nickname, `QueryReturnedNoRows`
/// means the table has none.
#[verifier::external_body]
fn select_one(conn: &rusqlite::Connection, nick: &str) -> (r: Result<
    Option<(String, String, u16, Vec<u8>)>,
    (),
>)
    ensures
        r matches Ok(Some(t)) ==> db_recs(*conn).contains_key(nick@) && db_recs(*conn)[nick@]
            == (t.0@, t.1@, t.2, t.3@),
        r matches Ok(None) ==> !db_recs(*conn).contains_key(nick@),
{
    match conn.query_row(
        "SELECT user, host, port, encoded_key FROM keys WHERE nickname = ?1",
        (nick,),
        |row| Ok((row.get(0)?, row.get(1)?, row.get(2)?, row.get(3)?)),
    ) {
        Ok(t) => Ok(Some(t)),
        Err(rusqlite::Error::QueryReturnedNoRows) => Ok(None),
        Err(_) => Err(()),
    }
}

/// Relies on rusqlite `Connection::execute` with UPDATE ... COALESCE over
/// the row under the nickname: an absent field keeps its prior value, no
/// other row changes, and the count of changed rows comes back. A failed
/// statement is backed out, so on an error the rows are as they were.
#[verifier::external_body]
fn exec_update(
    conn: &mut rusqlite::Connection,
    nick: &str,
    user: &Option<String>,
    host: &Option<String>,
    port: &Option<u16>,
) -> (r: Result<usize, ()>)
    ensures
        r matches Ok(n) ==> db_recs(*old(conn)).contains_key(nick@) ==> n == 1 && db_recs(
            *final(conn),
        ) == db_recs(*old(conn)).insert(
            nick@,
            coalesce(db_recs(*old(conn))[nick@], opt_str_view(*user), opt_str_view(*host), *port),
        ),
        r matches Ok(n) ==> !db_recs(*old(conn)).contains_key(nick@) ==> n == 0 && db_recs(
            *final(conn),
        ) == db_recs(*old(conn)),
        r is Err ==> db_recs(*final(conn)) == db_recs(*old(conn)),
{
    conn.execute(
        "UPDATE keys SET
            user = COALESCE(?1, user),
            host = COALESCE(?2, host),
            port = COALESCE(?3, port)
            WHERE nickname = ?4",
        (user.as_deref(), host.as_ref(), port.as_ref(), nick),
    ).map_err(|_| ())
}

/// Relies on rusqlite `Connection::execute` with a DELETE by primary key:
/// the row under the nickname, if any, goes away, nothing else does, and
/// the count of deleted rows comes back. A failed statement is backed out,
/// so on an error the rows are as they were.
#[verifier::external_body]
fn exec_delete(conn: &mut rusqlite::Connection, nick: &str) -> (r: Result<usize, ()>)
    ensures
        r matches Ok(n) ==> db_recs(*final(conn)) == db_recs(*old(conn)).remove(nick@),
        r matches Ok(n) ==> db_recs(*old(conn)).contains_key(nick@) ==> n == 1,
        r matches Ok(n) ==> !db_recs(*old(conn)).contains_key(nick@) ==> n == 0,
        r is Err ==> db_recs(*final(conn)) == db_recs(*old(conn)),
{
    conn.execute("DELETE FROM keys WHERE nickname = ?1", (nick,)).map_err(|_| ())
}

/// Relies on rusqlite `prepare` and `query_map` with a SELECT over the
/// whole table: every returned row stands in the table, every row of the
/// table is returned exactly once, and the order is the store's own.
#[verifier::external_body]
fn select_all(conn: &rusqlite::Connection) -> (r: Result<Vec<RawKey>, ()>)
    ensures
        r matches Ok(v) ==> forall|i: int|
            0 <= i < v@.len() ==> #[trigger] row_matches(db_recs(*conn), v@[i]),
        r matches Ok(v) ==> rows_cover(db_recs(*conn), v@),
        r matches Ok(v) ==> forall|i: int, j: int|
            0 <= i < j < v@.len() ==> #[trigger] row_nick(v@[i]) != #[trigger] row_nick(v@[j]),
{
    let q = "SELECT nickname, user, host, port, encoded_key FROM keys";
    let mut stmt = match conn.prepare(q) { Ok(s) => s, Err(_) => return Err(()) };
    let rows = stmt.query_map((), |row| Ok(RawKey {
        nickname: row.get(0)?, user: row.get(1)?, host: row.get(2)?,
        port: row.get(3)?, encoded_key: row.get(4)?,
    }));
    match rows {
        Ok(it) => it.collect::<Result<Vec<_>, _>>().map_err(|_| ()),
        Err(_) => Err(()),
    }
}

/// A record as the rest of the system uses it: the plain columns, the
/// decoded in-memory pair, its base64 public key and its algorithm name.
/// Only the store constructs these, on read; the decoded form is never
/// persisted.
pub struct ProcessedKey {
    pub nickname: String,
    pub user: String,
    pub host: String,
    pub port: u16,
    pub keypair: russh_keys::PrivateKey,
    pub pubkey: String,
    pub cipher: String,
}

/// A processed record agrees with the table: its plain columns are the
/// columns under its nickname, and its public key and algorithm name derive
/// from the stored blob.
pub open spec fn processed_matches(
    m: Map<Seq<char>, (Seq<char>, Seq<char>, u16, Seq<u8>)>,
    pk: ProcessedKey,
) -> bool {
    &&& m.contains_key(pk.nickname@)
    &&& m[pk.nickname@].0 == pk.user@
    &&& m[pk.nickname@].1 == pk.host@
    &&& m[pk.nickname@].2 == pk.port
    &&& blob_decodes(m[pk.nickname@].3)
    &&& pk.pubkey@ == pubkey_of(m[pk.nickname@].3)
    &&& pk.cipher@ == cipher_of(m[pk.nickname@].3)
}

/// The nickname of a processed record.
pub open spec fn pk_nick(pk: ProcessedKey) -> Seq<char> {
    pk.nickname@
}

impl RawKey {
    /// Decodes the blob into the in-memory view. A blob the key-encoding
    /// primitive rejects signals store corruption and fails, loudly, with a
    /// decode error.
    pub fn process(&self) -> (r: Result<ProcessedKey, Error>)
        ensures
            r is Ok <==> blob_decodes(self.encoded_key@),
            r matches Ok(pk) ==> pk.nickname@ == self.nickname@ && pk.user@ == self.user@
                && pk.host@ == self.host@ && pk.port == self.port && pk.pubkey@ == pubkey_of(
                self.encoded_key@,
            ) && pk.cipher@ == cipher_of(self.encoded_key@),
            r matches Err(e) ==> e is Decode,
    {
        match decode_stored_blob(&self.encoded_key) {
            Some((keypair, pubkey, cipher)) => Ok(
                ProcessedKey {
                    nickname: self.nickname.clone(),
                    user: self.user.clone(),
                    host: self.host.clone(),
                    port: self.port,
                    keypair,
                    pubkey,
                    cipher,
                },
            ),
            None => Err(Error::Decode),
        }
    }
}

/// Opens the store at the given path and creates the schema if it is
/// absent. Fails with a storage error when the file cannot be opened or the
/// schema cannot be created.
pub fn open_db(path: &str) -> (r: Result<rusqlite::Connection, Error>)
    ensures
        r matches Err(e) ==> e is Storage,
{
    match conn_open(path) {
        Some(conn) => {
            let mut conn = conn;
            if exec_create_schema(&mut conn) {
                Ok(conn)
            } else {
                Err(Error::Storage)
            }
        },
        None => Err(Error::Storage),
    }
}

/// Inserts a fresh record. Returns false, changing nothing, on a duplicate
/// nickname or a storage failure; returns true exactly when the row now
/// stands in the table as given.
pub fn insert_key(
    conn: &mut rusqlite::Connection,
    nick: &str,
    user: &str,
    host: &str,
    port: u16,
    encoded_key: Vec<u8>,
) -> (r: bool)
    ensures
        r ==> !db_recs(*old(conn)).contains_key(nick@) && db_recs(*final(conn)) == db_recs(
            *old(conn),
        ).insert(nick@, (user@, host@, port, encoded_key@)),
        !r ==> db_recs(*final(conn)) == db_recs(*old(conn)),
        db_recs(*old(conn)).contains_key(nick@) ==> !r,
{
    exec_insert(conn, nick, user, host, port, &encoded_key)
}

/// Reads the record under a nickname, decoded. An unknown nickname is a
/// not-found error; a blob that fails to decode is a decode error; only a
/// storage failure may hide a record that is present and sound.
pub fn get_key(conn: &rusqlite::Connection, nick: &str) -> (r: Result<ProcessedKey, Error>)
    ensures
        r matches Ok(pk) ==> pk.nickname@ == nick@ && processed_matches(db_recs(*conn), pk),
        r matches Err(e) ==> e is NotFound ==> !db_recs(*conn).contains_key(nick@),
        !db_recs(*conn).contains_key(nick@) ==> r is Err,
        r matches Err(e) ==> e is Decode ==> db_recs(*conn).contains_key(nick@) && !blob_decodes(
            db_recs(*conn)[nick@].3,
        ),
        r matches Err(e) ==> db_recs(*conn).contains_key(nick@) && blob_decodes(
            db_recs(*conn)[nick@].3,
        ) ==> e is Storage,
{
    match select_one(conn, nick) {
        Ok(Some((user, host, port, encoded_key))) => {
            let raw = RawKey { nickname: String::from_str(nick), user, host, port, encoded_key };
            raw.process()
        },
        Ok(None) => Err(Error::NotFound),
        Err(_) => Err(Error::Storage),
    }
}

/// Applies a partial update to the record under a nickname: an absent field
/// keeps its prior value, key material is never touched. The count of
/// changed rows comes back: one when the record exists, zero when it does
/// not. The upstream regenerate flag is accepted nowhere: a request that
/// carries it is rejected as an invalid setting, and nothing changes.
pub fn update_key(
    conn: &mut rusqlite::Connection,
    nick: &str,
    user: &Option<String>,
    host: &Option<String>,
    port: &Option<u16>,
    genkey: &Option<bool>,
) -> (r: Result<usize, Error>)
    ensures
        genkey matches Some(true) ==> (r matches Err(e) && e is Config) && db_recs(*final(conn))
            == db_recs(*old(conn)),
        r matches Ok(n) ==> db_recs(*old(conn)).contains_key(nick@) ==> n == 1 && db_recs(
            *final(conn),
        ) == db_recs(*old(conn)).insert(
            nick@,
            coalesce(db_recs(*old(conn))[nick@], opt_str_view(*user), opt_str_view(*host), *port),
        ),
        r matches Ok(n) ==> !db_recs(*old(conn)).contains_key(nick@) ==> n == 0 && db_recs(
            *final(conn),
        ) == db_recs(*old(conn)),
        r matches Err(e) ==> e is Storage || e is Config,
        r matches Err(e) ==> e is Config ==> genkey matches Some(true),
        r is Err ==> db_recs(*final(conn)) == db_recs(*old(conn)),
{
    match genkey {
        Some(true) => Err(Error::Config),
        _ => {
            match exec_update(conn, nick, user, host, port) {
                Ok(n) => Ok(n),
                Err(_) => Err(Error::Storage),
            }
        },
    }
}

/// Deletes the record under a nickname. The count of deleted rows comes
/// back: one when the record existed, zero when it did not.
pub fn del_key(conn: &mut rusqlite::Connection, nick: &str) -> (r: Result<usize, Error>)
    ensures
        r matches Ok(n) ==> db_recs(*final(conn)) == db_recs(*old(conn)).remove(nick@),
        r matches Ok(n) ==> db_recs(*old(conn)).contains_key(nick@) ==> n == 1,
        r matches Ok(n) ==> !db_recs(*old(conn)).contains_key(nick@) ==> n == 0,
        r matches Err(e) ==> e is Storage,
        r is Err ==> db_recs(*final(conn)) == db_recs(*old(conn)),
{
    match exec_delete(conn, nick) {
        Ok(n) => Ok(n),
        Err(_) => Err(Error::Storage),
    }
}

/// Reads every record, decoded. An empty store yields an empty sequence; a
/// single blob that fails to decode fails the whole read with a decode
/// error, never a shortened list.
pub fn get_all_keys(conn: &rusqlite::Connection) -> (r: Result<Vec<ProcessedKey>, Error>)
    ensures
        r matches Ok(v) ==> forall|i: int|
            0 <= i < v@.len() ==> #[trigger] processed_matches(db_recs(*conn), v@[i]),
        r matches Ok(v) ==> keys_cover(db_recs(*conn), v@),
        r matches Ok(v) ==> forall|i: int, j: int|
            0 <= i < j < v@.len() ==> #[trigger] pk_nick(v@[i]) != #[trigger] pk_nick(v@[j]),
        r matches Err(e) ==> e is Storage || e is Decode,
        r matches Err(e) ==> e is Decode ==> some_undecodable(db_recs(*conn)),
{
    let rows = match select_all(conn) {
        Ok(v) => v,
        Err(_) => {
            return Err(Error::Storage);
        },
    };
    let mut out: Vec<ProcessedKey> = Vec::new();
    let mut idx: usize = 0;
    while idx < rows.len()
        invariant
            idx <= rows@.len(),
            out@.len() == idx,
            forall|i: int| 0 <= i < rows@.len() ==> #[trigger] row_matches(db_recs(*conn), rows@[i]),
            forall|i: int|
                0 <= i < idx ==> #[trigger] processed_matches(db_recs(*conn), out@[i]),
            forall|i: int| 0 <= i < idx ==> #[trigger] pk_nick(out@[i]) == row_nick(rows@[i]),
        decreases rows@.len() - idx,
    {
        let pk = match rows[idx].process() {
            Ok(pk) => pk,
            Err(e) => {
                proof {
                    assert(row_matches(db_recs(*conn), rows@[idx as int]));
                    let n = rows@[idx as int].nickname@;
                    assert(db_recs(*conn).contains_key(n) && !blob_decodes(db_recs(*conn)[n].3));
                    assert(some_undecodable(db_recs(*conn)));
                }
                return Err(e);
            },
        };
        proof {
            assert(row_matches(db_recs(*conn), rows@[idx as int]));
            assert(processed_matches(db_recs(*conn), pk));
        }
        out.push(pk);
        idx = idx + 1;
    }
    proof {
        assert forall|n: Seq<char>| #[trigger] db_recs(*conn).contains_key(n) implies exists|i: int|
            0 <= i < out@.len() && #[trigger] pk_nick(out@[i]) == n by {
            let i = choose|i: int| 0 <= i < rows@.len() && #[trigger] row_nick(rows@[i]) == n;
            assert(pk_nick(out@[i]) == n);
        }
        assert(keys_cover(db_recs(*conn), out@));
        assert forall|i: int, j: int| 0 <= i < j < out@.len() implies #[trigger] pk_nick(out@[i])
            != #[trigger] pk_nick(out@[j]) by {
            assert(row_nick(rows@[i]) != row_nick(rows@[j]));
        }
    }
    Ok(out)
}

/// Inserting a record under a fresh nickname and then reading that nickname
/// yields exactly the fields inserted: the stored view of the round trip.
pub proof fn lemma_insert_then_get(
    m: Map<Seq<char>, (Seq<char>, Seq<char>, u16, Seq<u8>)>,
    nick: Seq<char>,
    user: Seq<char>,
    host: Seq<char>,
    port: u16,
    blob: Seq<u8>,
)
    requires
        !m.contains_key(nick),
    ensures
        m.insert(nick, (user, host, port, blob)).contains_key(nick),
        m.insert(nick, (user, host, port, blob))[nick] == (user, host, port, blob),
        forall|other: Seq<char>| other != nick && #[trigger] m.contains_key(other)
            ==> m.insert(nick, (user, host, port, blob))[other] == m[other],
{
}

/// An update that carries only a host changes only the host: user, port and
/// key material keep their prior values.
pub proof fn lemma_update_coalesces_host(
    rec: (Seq<char>, Seq<char>, u16, Seq<u8>),
    new_host: Seq<char>,
)
    ensures
        coalesce(rec, Option::None, Option::Some(new_host), Option::None) == (
            rec.0,
            new_host,
            rec.2,
            rec.3,
        ),
{
}

/// After a deletion the nickname is gone: a later read of it cannot find a
/// record, whatever else the table holds.
pub proof fn lemma_delete_then_get(
    m: Map<Seq<char>, (Seq<char>, Seq<char>, u16, Seq<u8>)>,
    nick: Seq<char>,
)
    ensures
        !m.remove(nick).contains_key(nick),
        forall|other: Seq<char>| other != nick && #[trigger] m.contains_key(other)
            ==> m.remove(nick).contains_key(other) && m.remove(nick)[other] == m[other],
{
}

} // verus!
