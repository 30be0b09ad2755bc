//! The proof verification service: one verification key, installed once,
//! against which proofs and their public inputs are checked.

use vstd::prelude::*;

verus! {

/// Why a verification-service call failed.
#[derive(Clone, Copy, Debug, PartialEq, Eq, Structural)]
pub enum Error {
    VkParseError,
    ProofParseError,
    VerificationFailed,
    VkNotSet,
    AlreadyInitialized,
}

/// What the cryptographic primitive made of a key, a proof and public inputs.
#[derive(Clone, Copy, Debug, PartialEq, Eq, Structural)]
pub enum HonkOutcome {
    /// The proof holds for the public inputs under the key.
    Accepted,
    /// The key parsed, and the proof was rejected or the check faulted.
    Rejected,
    /// The key bytes are not a valid verification key.
    KeyUnreadable,
}

/// The service's result for an outcome of the cryptographic primitive.
pub open spec fn verdict_of(o: HonkOutcome) -> Result<(), Error> {
    match o {
        HonkOutcome::Accepted => Ok(()),
        HonkOutcome::Rejected => Err(Error::VerificationFailed),
        HonkOutcome::KeyUnreadable => Err(Error::VkParseError),
    }
}

/// The verification service's durable state.
pub struct UltraHonkVerifierContract {
    /// The installed verification key, if any.
    pub vk: Option<Vec<u8>>,
    /// The length every proof must have, fixed by the proof system.
    pub proof_bytes: usize,
}

impl UltraHonkVerifierContract {
    /// The state and result of `initialize` with key `vk_bytes`.
    pub open spec fn initialize_spec(self, vk_bytes: Vec<u8>) -> (Self, Result<(), Error>) {
        if self.vk is Some {
            (self, Err(Error::AlreadyInitialized))
        } else {
            (UltraHonkVerifierContract { vk: Some(vk_bytes), ..self }, Ok(()))
        }
    }

    /// The error `verify_proof` returns before any cryptographic work, for a
    /// proof of `proof_len` bytes; `None` when the primitive decides.
    pub open spec fn precheck(self, proof_len: int) -> Option<Error> {
        if self.vk is None {
            Some(Error::VkNotSet)
        } else if proof_len != self.proof_bytes {
            Some(Error::ProofParseError)
        } else {
            None
        }
    }

    /// A service with no key installed, for proofs of `proof_bytes` bytes.
    pub fn new(proof_bytes: usize) -> (r: Self)
        ensures
            r.vk is None,
            r.proof_bytes == proof_bytes,
    {
        UltraHonkVerifierContract { vk: None, proof_bytes }
    }

    /// Whether a verification key is installed.
    pub fn is_initialized(&self) -> (r: bool)
        ensures
            r == self.vk is Some,
    {
        self.vk.is_some()
    }

    /// Installs the verification key. Fails with `AlreadyInitialized`, and
    /// changes nothing, when a key is already installed.
    pub fn initialize(&mut self, vk_bytes: Vec<u8>) -> (r: Result<(), Error>)
        ensures
            (*final(self), r) == old(self).initialize_spec(vk_bytes),
    {
        if self.vk.is_some() {
            return Err(Error::AlreadyInitialized);
        }
        self.vk = Some(vk_bytes);
        Ok(())
    }

    /// Checks a proof against the installed key. Fails with `VkNotSet` when
    /// no key is installed, then with `ProofParseError` when the proof has the
    /// wrong length; otherwise `check` runs on the key, the proof and the
    /// public inputs, and its outcome decides.
    pub fn verify_proof<F>(&self, public_inputs: &Vec<u8>, proof_bytes: &Vec<u8>, check: F) -> (r:
        Result<(), Error>) where F: Fn(&Vec<u8>, &Vec<u8>, &Vec<u8>) -> HonkOutcome
        requires
            forall|k: &Vec<u8>, p: &Vec<u8>, i: &Vec<u8>| check.requires((k, p, i)),
        ensures
            self.precheck(proof_bytes@.len() as int) matches Some(e) ==> r == Err::<(), Error>(e),
            self.precheck(proof_bytes@.len() as int) is None ==> exists|o: HonkOutcome|
                #[trigger] check.ensures((&self.vk->Some_0, proof_bytes, public_inputs), o) && r
                    == verdict_of(o),
    {
        match &self.vk {
            None => Err(Error::VkNotSet),
            Some(vk) => {
                if proof_bytes.len() != self.proof_bytes {
                    return Err(Error::ProofParseError);
                }
                let o = check(vk, proof_bytes, public_inputs);
                match o {
                    HonkOutcome::Accepted => Ok(()),
                    HonkOutcome::Rejected => Err(Error::VerificationFailed),
                    HonkOutcome::KeyUnreadable => Err(Error::VkParseError),
                }
            },
        }
    }
}

/// A second `initialize` fails with `AlreadyInitialized` and leaves the
/// installed key as the first call put it.
pub proof fn lemma_initialize_once(
    s: UltraHonkVerifierContract,
    first: Vec<u8>,
    second: Vec<u8>,
)
    ensures
        ({
            let s1 = s.initialize_spec(first).0;
            let (s2, r2) = s1.initialize_spec(second);
            &&& r2 == Err::<(), Error>(Error::AlreadyInitialized)
            &&& s2 == s1
            &&& s2.vk is Some
        }),
{
}

/// `verify_proof` fails with `VkNotSet` exactly when no key is installed,
/// and once `initialize` has run, it never does again.
pub proof fn lemma_key_not_set_iff_uninstalled(
    s: UltraHonkVerifierContract,
    vk_bytes: Vec<u8>,
    proof_len: int,
)
    ensures
        s.precheck(proof_len) == Some(Error::VkNotSet) <==> s.vk is None,
        s.initialize_spec(vk_bytes).0.precheck(proof_len) != Some(Error::VkNotSet),
        s.initialize_spec(vk_bytes).0.initialize_spec(vk_bytes).0.precheck(proof_len) != Some(
            Error::VkNotSet,
        ),
        verdict_of(HonkOutcome::Accepted) != Err::<(), Error>(Error::VkNotSet),
        verdict_of(HonkOutcome::Rejected) != Err::<(), Error>(Error::VkNotSet),
        verdict_of(HonkOutcome::KeyUnreadable) != Err::<(), Error>(Error::VkNotSet),
{
}

/// Once a key is installed, a proof of the wrong length fails with
/// `ProofParseError` whatever the key and the public inputs are.
pub proof fn lemma_wrong_length_rejected(s: UltraHonkVerifierContract, proof_len: int)
    requires
        s.vk is Some,
        proof_len != s.proof_bytes,
    ensures
        s.precheck(proof_len) == Some(Error::ProofParseError),
{
}

/// A stand-in verification service that accepts every proof.
pub struct MockVerifier;

impl MockVerifier {
    /// Accepts any proof for any public inputs.
    pub fn verify_proof(&self, public_inputs: &Vec<u8>, proof_bytes: &Vec<u8>) -> (r: Result<
        (),
        Error,
    >)
        ensures
            r == Ok::<(), Error>(()),
    {
        Ok(())
    }
}

} // verus!
