//! The commit-reveal guessing game: players commit to a hidden guess, the
//! game binds a pseudorandom target to each commitment, and a win is claimed
//! with a proof that the guess equals the target.

use crate::encoding::{
    address_field, address_field_of, encode_public_inputs, field_from_u32, field_of_u32,
    public_inputs_of, target_from_seed, target_of_seed,
};
use crate::host::{poseidon2, poseidon2_of, sha256, sha256_of};
use crate::proof_service::Error;
use soroban_sdk::Env;
use vstd::prelude::*;

verus! {

/// Why a game call failed.
#[derive(Clone, Copy, Debug, PartialEq, Eq, Structural)]
pub enum GameError {
    /// No verification service has been registered.
    NotInitialized,
    /// The player has not committed to a guess.
    NoCommitment,
    /// The verification service refused the claim.
    Verifier(Error),
}

/// One write of a player's commitment and target.
pub struct PlayerRecord {
    /// The player's serialized identity.
    pub player: Vec<u8>,
    pub commitment: [u8; 32],
    pub target: u32,
}

/// The commitment and target that `records` hold for `player`: the last
/// write for that player wins, as it does for a storage key.
pub open spec fn lookup(records: Seq<PlayerRecord>, player: Seq<u8>) -> Option<(Seq<u8>, u32)>
    decreases records.len(),
{
    if records.len() == 0 {
        None
    } else if records.last().player@ == player {
        Some((records.last().commitment@, records.last().target))
    } else {
        lookup(records.drop_last(), player)
    }
}

/// The target bound to a commitment by `player` with `nonce`: the last byte,
/// modulo 100, of the Poseidon2 hash of the player's address field and the
/// nonce's low 32 bits.
pub open spec fn derived_target(player: Seq<u8>, nonce: u64) -> u32 {
    target_of_seed(
        poseidon2_of(address_field_of(sha256_of(player)), field_of_u32(nonce as u32)),
    )
}

/// The service's result as the game reports it.
pub open spec fn lift(v: Result<(), Error>) -> Result<(), GameError> {
    match v {
        Ok(()) => Ok(()),
        Err(e) => Err(GameError::Verifier(e)),
    }
}

/// The game's durable state.
pub struct GuessGame {
    /// The reference of the verification service, once registered.
    pub verifier: Option<Vec<u8>>,
    /// Every commitment write, oldest first.
    pub records: Vec<PlayerRecord>,
}

/// Whether two byte strings are equal.
fn same_bytes(a: &Vec<u8>, b: &Vec<u8>) -> (r: bool)
    ensures
        r == (a@ == b@),
{
    if a.len() != b.len() {
        return false;
    }
    let mut i: usize = 0;
    while i < a.len()
        invariant
            a@.len() == b@.len(),
            i <= a@.len(),
            forall|k: int| 0 <= k < i ==> a@[k] == b@[k],
        decreases a@.len() - i,
    {
        if a[i] != b[i] {
            return false;
        }
        i += 1;
    }
    assert(a@ =~= b@);
    true
}

/// Computes the target bound to a commitment by `player` with `nonce`.
pub fn derive_target(env: &Env, player: &Vec<u8>, nonce: u64) -> (r: u32)
    ensures
        r == derived_target(player@, nonce),
        r < 100,
{
    let digest = sha256(env, player);
    let addr = address_field(&digest);
    let nonce_field = field_from_u32(nonce as u32);
    assert(nonce_field@[0] == field_of_u32(nonce as u32)[0]);
    let seed = poseidon2(env, &addr, &nonce_field);
    target_from_seed(&seed)
}

/// Every derived target lies in `[0, 100)`.
pub proof fn lemma_target_in_range(player: Seq<u8>, nonce: u64)
    ensures
        derived_target(player, nonce) < 100,
{
}

/// What a commitment to `hash` by `player` with `nonce` stores: the hash and
/// the derived target.
pub open spec fn commit_entry(player: Seq<u8>, hash: Seq<u8>, nonce: u64) -> (Seq<u8>, u32) {
    (hash, derived_target(player, nonce))
}

/// Target derivation depends on the player and the nonce alone: two
/// commitments by one player with one nonce bind the same target, whatever
/// the hashes committed to.
pub proof fn lemma_target_deterministic(player: Seq<u8>, hash1: Seq<u8>, hash2: Seq<u8>, nonce: u64)
    ensures
        commit_entry(player, hash1, nonce).1 == commit_entry(player, hash2, nonce).1,
        commit_entry(player, hash1, nonce).1 == derived_target(player, nonce),
{
}

proof fn lemma_lookup_push(records: Seq<PlayerRecord>, rec: PlayerRecord, player: Seq<u8>)
    ensures
        lookup(records.push(rec), player) == if rec.player@ == player {
            Some((rec.commitment@, rec.target))
        } else {
            lookup(records, player)
        },
{
    assert(records.push(rec).drop_last() =~= records);
}

impl GuessGame {
    /// The commitment and target held for `player`.
    pub open spec fn entry(self, player: Seq<u8>) -> Option<(Seq<u8>, u32)> {
        lookup(self.records@, player)
    }

    /// A game with no verification service and no commitments.
    pub fn new() -> (r: Self)
        ensures
            r.verifier is None,
            forall|p: Seq<u8>| #[trigger] r.entry(p) is None,
    {
        GuessGame { verifier: None, records: Vec::new() }
    }

    /// Registers the verification service that claims are checked by.
    pub fn initialize(&mut self, verifier: Vec<u8>)
        ensures
            final(self).verifier == Some(verifier),
            final(self).records == old(self).records,
    {
        self.verifier = Some(verifier);
    }

    /// The commitment and target held for `player`.
    pub fn entry_of(&self, player: &Vec<u8>) -> (r: Option<([u8; 32], u32)>)
        ensures
            r is None <==> self.entry(player@) is None,
            r matches Some((c, t)) ==> self.entry(player@) == Some((c@, t)),
    {
        let mut i: usize = self.records.len();
        assert(self.records@.subrange(0, i as int) =~= self.records@);
        while i > 0
            invariant
                i <= self.records@.len(),
                lookup(self.records@, player@) == lookup(self.records@.subrange(0, i as int), player@),
            decreases i,
        {
            let rec = &self.records[i - 1];
            assert(self.records@.subrange(0, i as int).drop_last() =~= self.records@.subrange(
                0,
                i - 1,
            ));
            if same_bytes(&rec.player, player) {
                return Some((rec.commitment, rec.target));
            }
            i -= 1;
        }
        None
    }

    /// The commitment held for `player`.
    pub fn commitment(&self, player: &Vec<u8>) -> (r: Option<[u8; 32]>)
        ensures
            r is None <==> self.entry(player@) is None,
            r matches Some(c) ==> self.entry(player@)->Some_0.0 == c@,
    {
        match self.entry_of(player) {
            Some((c, _)) => Some(c),
            None => None,
        }
    }

    /// The target bound to `player`'s commitment.
    pub fn target(&self, player: &Vec<u8>) -> (r: Option<u32>)
        ensures
            r is None <==> self.entry(player@) is None,
            r matches Some(t) ==> self.entry(player@)->Some_0.1 == t,
    {
        match self.entry_of(player) {
            Some((_, t)) => Some(t),
            None => None,
        }
    }

    /// Stores `player`'s commitment to `hash` and binds to it the target
    /// derived from the player and `nonce`, a fresh random number.
    pub fn commit_guess(&mut self, env: &Env, player: Vec<u8>, hash: [u8; 32], nonce: u64)
        ensures
            final(self).verifier == old(self).verifier,
            final(self).entry(player@) == Some(commit_entry(player@, hash@, nonce)),
            forall|p: Seq<u8>| p != player@ ==> #[trigger] final(self).entry(p) == old(self).entry(p),
    {
        let target = derive_target(env, &player, nonce);
        let rec = PlayerRecord { player, commitment: hash, target };
        proof {
            assert forall|p: Seq<u8>| true implies #[trigger] lookup(self.records@.push(rec), p) == if rec.player@ == p {
                Some((rec.commitment@, rec.target))
            } else {
                lookup(self.records@, p)
            } by {
                lemma_lookup_push(self.records@, rec, p);
            }
        }
        self.records.push(rec);
    }

    /// Claims a win for `player` with `proof`. Fails with `NoCommitment` when
    /// the player has not committed, then with `NotInitialized` when no
    /// verification service is registered; otherwise the public inputs built
    /// from the stored commitment and target go to `verify` with the proof,
    /// and its result is passed on.
    pub fn claim_win<V>(&self, player: &Vec<u8>, proof: &Vec<u8>, verify: V) -> (r: Result<
        (),
        GameError,
    >) where V: Fn(&Vec<u8>, &Vec<u8>) -> Result<(), Error>
        requires
            forall|i: &Vec<u8>, p: &Vec<u8>| verify.requires((i, p)),
        ensures
            self.entry(player@) is None ==> r == Err::<(), GameError>(GameError::NoCommitment),
            self.entry(player@) is Some && self.verifier is None ==> r == Err::<(), GameError>(
                GameError::NotInitialized,
            ),
            self.entry(player@) is Some && self.verifier is Some ==> exists|
                pi: Vec<u8>,
                v: Result<(), Error>,
            |
                pi@ == public_inputs_of(self.entry(player@)->Some_0.0, self.entry(player@)->Some_0.1)
                    && #[trigger] verify.ensures((&pi, proof), v) && r == lift(v),
    {
        let (commitment, target) = match self.entry_of(player) {
            Some(e) => e,
            None => return Err(GameError::NoCommitment),
        };
        let public_inputs = encode_public_inputs(&commitment, target);
        if self.verifier.is_none() {
            return Err(GameError::NotInitialized);
        }
        match verify(&public_inputs, proof) {
            Ok(()) => Ok(()),
            Err(e) => Err(GameError::Verifier(e)),
        }
    }
}

} // verus!
