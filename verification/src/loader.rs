//! The bootstrap loader's view of the running agent.
//!
//! Once the serving socket is live, the loader connects to it as an
//! ordinary client and issues one add-identity request per stored record,
//! so decrypted material is injected but never written to disk. The binary
//! performs the socket work; what stands here is the batch itself, run
//! against the loader's model of the agent's identity list: adds only ever
//! append, so earlier identities survive later runs, and a duplicate add is
//! accepted rather than refused.

use vstd::prelude::*;

use crate::db::ProcessedKey;

verus! {

/// A public key occurs in an identity list.
pub open spec fn ident_has(s: Seq<Seq<char>>, p: Seq<char>) -> bool {
    exists|i: int| 0 <= i < s.len() && s[i] == p
}

/// The base64 public key of a processed record.
pub open spec fn pk_pub(pk: ProcessedKey) -> Seq<char> {
    pk.pubkey@
}

/// Appending to an identity list keeps everything that was present and
/// makes the appended key present; in particular an identity already
/// present stays present however often it is added again.
pub proof fn lemma_add_keeps_identities(s: Seq<Seq<char>>, x: Seq<char>)
    ensures
        forall|p: Seq<char>| #[trigger] ident_has(s, p) ==> ident_has(s.push(x), p),
        ident_has(s.push(x), x),
{
    assert forall|p: Seq<char>| #[trigger] ident_has(s, p) implies ident_has(s.push(x), p) by {
        let i = choose|i: int| 0 <= i < s.len() && s[i] == p;
        assert(s.push(x)[i] == p);
    }
    assert(s.push(x)[s.len() as int] == x);
}

/// The identities registered in the agent, as the loader sees them: the
/// base64 public keys, in order of registration, duplicates kept.
///
/// This is a model of the serving process's own runtime state, which lives
/// across the socket and cannot literally run here: the batch semantics are
/// proved against it, and the binary performs the corresponding adds over
/// the loopback connection.
pub struct AgentIdentities {
    pubkeys: Vec<String>,
}

impl AgentIdentities {
    /// The registered public keys, oldest first.
    pub closed spec fn keys(self) -> Seq<Seq<char>> {
        Seq::new(self.pubkeys@.len(), |i: int| self.pubkeys@[i]@)
    }

    /// A public key is registered at least once.
    pub open spec fn has(self, p: Seq<char>) -> bool {
        ident_has(self.keys(), p)
    }

    /// An agent with nothing registered yet.
    pub fn new() -> (r: AgentIdentities)
        ensures
            r.keys() == Seq::<Seq<char>>::empty(),
    {
        let r = AgentIdentities { pubkeys: Vec::new() };
        proof {
            assert(r.keys() =~= Seq::<Seq<char>>::empty());
        }
        r
    }

    /// Whether a public key is registered at least once.
    pub fn contains(&self, pubkey: &String) -> (r: bool)
        ensures
            r == self.has(pubkey@),
    {
        let mut i: usize = 0;
        while i < self.pubkeys.len()
            invariant
                i <= self.pubkeys@.len(),
                forall|j: int| 0 <= j < i ==> self.keys()[j] != pubkey@,
            decreases self.pubkeys@.len() - i,
        {
            if self.pubkeys[i].eq(pubkey) {
                proof {
                    assert(self.keys()[i as int] == pubkey@);
                }
                return true;
            }
            i = i + 1;
        }
        proof {
            assert(!ident_has(self.keys(), pubkey@));
        }
        false
    }

    /// Registers one identity. A key already present is simply appended
    /// again: the add never fails and never displaces anything.
    pub fn add_identity(&mut self, pubkey: &String)
        ensures
            final(self).keys() == old(self).keys().push(pubkey@),
    {
        let ghost prior = self.keys();
        self.pubkeys.push(pubkey.clone());
        proof {
            assert(self.keys() =~= prior.push(pubkey@));
        }
    }
}

/// Injects every stored record's identity into the agent, in order.
///
/// After a run, every record's public key is present; and every identity
/// present before the run is still present, so a second run of the same
/// batch leaves each record's public key present at least once and a
/// duplicate add cannot fail.
pub fn bootstrap(agent: &mut AgentIdentities, keys: &Vec<ProcessedKey>)
    ensures
        forall|i: int| 0 <= i < keys@.len() ==> final(agent).has(#[trigger] pk_pub(keys@[i])),
        forall|p: Seq<char>| #[trigger] old(agent).has(p) ==> final(agent).has(p),
{
    let mut idx: usize = 0;
    while idx < keys.len()
        invariant
            idx <= keys@.len(),
            forall|i: int| 0 <= i < idx ==> agent.has(#[trigger] pk_pub(keys@[i])),
            forall|p: Seq<char>| #[trigger] old(agent).has(p) ==> agent.has(p),
        decreases keys@.len() - idx,
    {
        let ghost pre = agent.keys();
        agent.add_identity(&keys[idx].pubkey);
        proof {
            lemma_add_keeps_identities(pre, keys@[idx as int].pubkey@);
        }
        idx = idx + 1;
    }
}

} // verus!
