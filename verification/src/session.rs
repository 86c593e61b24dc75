//! Session coordinator: one facade over ledger, key manager and proof
//! engine.
//!
//! The key-readiness state machine has two states, uninitialized and
//! ready. The only transition is a successful `setup_keys` call; once a
//! key pair exists it is never replaced, and it stays bound to the shape
//! it was derived for. Proof operations in the uninitialized state fail
//! with `KeyNotInitialized` instead of aborting.

use vstd::prelude::*;

verus! {

use halo2_proofs::pasta::Fp;
use halo2_proofs::plonk::Circuit;
use crate::backend::{
    backend_create_proof, backend_keygen_pk, backend_keygen_vk, backend_verify, verify_outcome_of,
    BackendParams, BackendProvingKey, BackendVerifyingKey, VerifyOutcome,
};
use crate::circuit::CircuitShape;
use crate::codec::{decode_spec, encode_spec, ingest_and_compress, lemma_encode_decode_roundtrip};
use crate::ledger::Ledger;

/// Every failure the facade reports. A proof that checks out false is a
/// legitimate result, not one of these; an absent ledger id is `None`,
/// not one of these.
#[derive(Clone, Copy, Debug, PartialEq, Eq, Structural)]
pub enum ZkError {
    /// The constraint system could not be built for the given parameters,
    /// or a circuit shape does not match the one the keys were bound to.
    ConfigurationError,
    /// A proof operation was attempted before any successful key setup.
    KeyNotInitialized,
    /// The backend failed while committing to the witness.
    ProofGenerationFailure,
    /// Proof bytes that could not even be parsed into commitments -
    /// distinct from a well-formed proof that fails its checks.
    ProofFormatError,
}

/// A proving and verifying key derived together, bound to one shape.
pub struct KeyPair {
    pub pk: BackendProvingKey,
    pub vk: BackendVerifyingKey,
    pub shape: CircuitShape,
}

pub struct ZKIT {
    storage: Ledger,
    params: BackendParams,
    keys: Option<KeyPair>,
}

/// Maps the backend verifier's report to the facade's result: a valid
/// transcript answers `true`, a well-formed transcript that fails its
/// checks answers `false`, and unparseable bytes are a format error.
pub fn interpret_verify(outcome: VerifyOutcome) -> (r: Result<bool, ZkError>)
    ensures
        r == (match outcome {
            VerifyOutcome::Valid => Ok::<bool, ZkError>(true),
            VerifyOutcome::Invalid => Ok::<bool, ZkError>(false),
            VerifyOutcome::Malformed => Err::<bool, ZkError>(ZkError::ProofFormatError),
        }),
{
    match outcome {
        VerifyOutcome::Valid => Ok(true),
        VerifyOutcome::Invalid => Ok(false),
        VerifyOutcome::Malformed => Err(ZkError::ProofFormatError),
    }
}

impl ZKIT {
    /// The key-readiness state: `None` while uninitialized, or the shape
    /// the derived key pair is bound to.
    pub closed spec fn key_state(&self) -> Option<CircuitShape> {
        match self.keys {
            Some(kp) => Some(kp.shape),
            None => None,
        }
    }

    pub open spec fn key_ready(&self) -> bool {
        self.key_state() is Some
    }

    /// The ledger's mathematical content: id to encoded record.
    pub closed spec fn ledger(&self) -> Map<u64, Seq<nat>> {
        self.storage@
    }

    /// How many records have been ingested; also the highest id in use.
    pub closed spec fn record_count(&self) -> u64 {
        self.storage.count()
    }

    /// The ledger's ids are dense: exactly 1 through `record_count`.
    pub closed spec fn wf(&self) -> bool {
        self.storage.wf()
    }

    /// The parameter set this coordinator was built over; it never
    /// changes for the coordinator's lifetime.
    pub closed spec fn params_of(&self) -> BackendParams {
        self.params
    }

    /// What checking a proof answers in this state: uninitialized fails,
    /// and otherwise the backend verifier's answer for this parameter
    /// set, key and transcript decides, a false verdict never conflated
    /// with a format error.
    pub closed spec fn verify_answer(&self, proof: Seq<u8>) -> Result<bool, ZkError> {
        match self.keys {
            None => Err(ZkError::KeyNotInitialized),
            Some(kp) => match verify_outcome_of(self.params, kp.vk, proof) {
                VerifyOutcome::Valid => Ok(true),
                VerifyOutcome::Invalid => Ok(false),
                VerifyOutcome::Malformed => Err(ZkError::ProofFormatError),
            },
        }
    }

    pub fn new(params: BackendParams) -> (r: ZKIT)
        ensures
            !r.key_ready(),
            r.ledger() == Map::<u64, Seq<nat>>::empty(),
            r.record_count() == 0,
            r.wf(),
            r.params_of() == params,
    {
        ZKIT { storage: Ledger::new(), params, keys: None }
    }

    /// Derives the key pair for `circuit`, whose shape the caller states
    /// as `shape`, and enters the ready state. Once ready, later calls
    /// change nothing and succeed; a failed derivation leaves the
    /// coordinator uninitialized. The ledger is never touched.
    pub fn setup_keys<ConcreteCircuit: Circuit<Fp>>(
        &mut self,
        shape: CircuitShape,
        circuit: &ConcreteCircuit,
    ) -> (r: Result<(), ZkError>)
        ensures
            final(self).ledger() == old(self).ledger(),
            final(self).record_count() == old(self).record_count(),
            final(self).params_of() == old(self).params_of(),
            old(self).key_ready() ==> r is Ok && final(self).key_state() == old(self).key_state(),
            !old(self).key_ready() && r is Ok ==> final(self).key_state() == Some(shape),
            r is Err ==> r == Err::<(), ZkError>(ZkError::ConfigurationError)
                && !final(self).key_ready(),
    {
        if self.keys.is_some() {
            return Ok(());
        }
        let vk = match backend_keygen_vk(&self.params, circuit) {
            Ok(vk) => vk,
            Err(_) => {
                return Err(ZkError::ConfigurationError);
            },
        };
        let pk = match backend_keygen_pk(&self.params, &vk, circuit) {
            Ok(pk) => pk,
            Err(_) => {
                return Err(ZkError::ConfigurationError);
            },
        };
        self.keys = Some(KeyPair { pk, vk, shape });
        Ok(())
    }

    /// Encodes `data` and files it in the ledger under the next id, as
    /// one indivisible operation on the exclusively held coordinator.
    pub fn batch_and_inscribe(&mut self, data: Vec<u8>) -> (id: u64)
        requires
            old(self).wf(),
            old(self).record_count() < u64::MAX,
        ensures
            id == old(self).record_count() + 1,
            final(self).record_count() == id,
            final(self).ledger() == old(self).ledger().insert(id, encode_spec(data@)),
            final(self).wf(),
            final(self).key_state() == old(self).key_state(),
            final(self).params_of() == old(self).params_of(),
    {
        let rec = ingest_and_compress(data);
        self.storage.insert(rec)
    }

    /// Issues a proof for `circuit`, whose shape the caller states as
    /// `shape`. Fails with `KeyNotInitialized` exactly when no keys have
    /// been derived, and rejects a shape other than the one the keys are
    /// bound to. Freshness of the proof's randomness is the trusted
    /// boundary's concern; nothing is promised of the proof bytes.
    pub fn create_proof<ConcreteCircuit: Circuit<Fp>>(
        &self,
        shape: CircuitShape,
        circuit: &ConcreteCircuit,
    ) -> (r: Result<Vec<u8>, ZkError>)
        ensures
            !self.key_ready() <==> r == Err::<Vec<u8>, ZkError>(ZkError::KeyNotInitialized),
            self.key_ready() && self.key_state() != Some(shape) ==> r == Err::<Vec<u8>, ZkError>(
                ZkError::ConfigurationError,
            ),
            self.key_state() == Some(shape) ==> r is Ok || r == Err::<Vec<u8>, ZkError>(
                ZkError::ProofGenerationFailure,
            ),
    {
        let kp = match &self.keys {
            Some(kp) => kp,
            None => {
                return Err(ZkError::KeyNotInitialized);
            },
        };
        if !(kp.shape == shape) {
            return Err(ZkError::ConfigurationError);
        }
        match backend_create_proof(&self.params, &kp.pk, circuit) {
            Ok(proof) => Ok(proof),
            Err(_) => Err(ZkError::ProofGenerationFailure),
        }
    }

    /// Checks a proof transcript. Fails with `KeyNotInitialized` exactly
    /// when no keys have been derived; otherwise a well-formed transcript
    /// answers `true` or `false`, and unparseable bytes are a format
    /// error: never conflated with a `false` verdict. The answer is
    /// deterministic: the verifier recomputes the transcript from the
    /// proof's committed values alone, so it is a function of the
    /// parameter set, the verifying key and the proof bytes.
    pub fn verify_proof(&self, proof: &[u8]) -> (r: Result<bool, ZkError>)
        ensures
            r == self.verify_answer(proof@),
            !self.key_ready() <==> r == Err::<bool, ZkError>(ZkError::KeyNotInitialized),
            self.key_ready() ==> r is Ok || r == Err::<bool, ZkError>(ZkError::ProofFormatError),
    {
        let kp = match &self.keys {
            Some(kp) => kp,
            None => {
                return Err(ZkError::KeyNotInitialized);
            },
        };
        interpret_verify(backend_verify(&self.params, &kp.vk, proof))
    }

    /// Looks a record up and decodes it. Exactly the ids 1 through
    /// `record_count` answer a value; any other id answers `None`.
    pub fn retrieve_data(&self, index: u64) -> (r: Option<Vec<u8>>)
        ensures
            match r {
                Some(bytes) => self.ledger().contains_key(index) && bytes@ == decode_spec(
                    self.ledger()[index],
                ),
                None => !self.ledger().contains_key(index),
            },
            self.wf() ==> (r is Some <==> 1 <= index <= self.record_count()),
    {
        match self.storage.get(index) {
            Some(rec) => Some(rec.decompress()),
            None => None,
        }
    }

    /// How many records the ledger holds.
    pub fn count(&self) -> (r: u64)
        ensures
            r == self.record_count(),
    {
        self.storage.record_count()
    }
}

/// Round trip at the facade: in any coordinator state reached by
/// ingesting `bytes` under id `id` (the state `batch_and_inscribe`
/// answers), the stored record under `id` decodes to `bytes` again,
/// which is what `retrieve_data(id)` returns. Exact because encoding
/// restricts every representative to a single byte.
pub proof fn lemma_ingest_retrieve_roundtrip(pre: &ZKIT, post: &ZKIT, bytes: Seq<u8>, id: u64)
    requires
        post.ledger() == pre.ledger().insert(id, encode_spec(bytes)),
    ensures
        post.ledger().contains_key(id),
        decode_spec(post.ledger()[id]) == bytes,
{
    lemma_encode_decode_roundtrip(bytes);
}

/// In a well-formed coordinator the ids in use are exactly 1 through
/// `record_count`: none is duplicated (they index a map), none is
/// skipped, and 0 is never used. After any run of ingestions on a fresh
/// coordinator the id set is therefore 1 through the number of calls.
pub proof fn lemma_ids_dense(z: &ZKIT)
    requires
        z.wf(),
    ensures
        forall|id: u64| z.ledger().contains_key(id) <==> 1 <= id <= z.record_count(),
{
}

} // verus!
