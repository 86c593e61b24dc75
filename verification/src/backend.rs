//! Trusted boundary to the proving backend.
//!
//! Every item here either carries an opaque backend value or wraps a
//! backend call behind the contract that the rest of the crate relies on.
//! Field elements are reasoned about through `fp_value`, their canonical
//! integer representative; keys, parameters and proofs carry no further
//! structure that the orchestration logic reads.

use vstd::prelude::*;

verus! {

use halo2_proofs::pasta::group::ff::PrimeField;
use halo2_proofs::pasta::{EqAffine, Fp};
use halo2_proofs::plonk::Circuit;
use halo2_proofs::plonk::Error as PlonkError;
use halo2_proofs::poly::commitment::Params;
use halo2_proofs::transcript::{Blake2bRead, Blake2bWrite, Challenge255};
use rand::rngs::OsRng;

#[verifier::external_type_specification]
#[verifier::external_body]
pub struct ExFp(Fp);

/// An error of the proving backend. Opaque: the orchestration logic maps
/// any such value to one of its own error variants.
#[verifier::external_type_specification]
#[verifier::external_body]
pub struct ExPlonkError(PlonkError);

/// Public setup data for the polynomial commitment scheme, sized to a
/// maximum circuit degree of `2^k` rows. Produced once and shared
/// read-only by key derivation and proof operations.
#[verifier::external_body]
pub struct BackendParams {
    params: Params<EqAffine>,
}

/// A proving key derived for one circuit shape; immutable once derived.
#[verifier::external_body]
pub struct BackendProvingKey {
    pk: halo2_proofs::plonk::ProvingKey<EqAffine>,
}

/// A verifying key derived for one circuit shape; immutable once derived.
#[verifier::external_body]
pub struct BackendVerifyingKey {
    vk: halo2_proofs::plonk::VerifyingKey<EqAffine>,
}

/// What the backend's verifier said of one proof. `Valid` and `Invalid`
/// are both legitimate outcomes of a well-formed transcript; `Malformed`
/// means the bytes could not even be parsed into commitments.
pub enum VerifyOutcome {
    Valid,
    Invalid,
    Malformed,
}

/// The canonical integer representative of a field element: the unique
/// natural number below the field's prime modulus that the element stands
/// for. Every contract on backend field values is phrased over it.
pub uninterp spec fn fp_value(f: Fp) -> nat;

/// Relies on `<Fp as From<u64>>::from`: it embeds a 64-bit integer as the
/// field element whose canonical representative is that integer (every
/// `u64` lies below the field modulus, which exceeds `2^253`).
#[verifier::external_body]
pub fn fp_from_u64(x: u64) -> (r: Fp)
    ensures
        fp_value(r) == x as nat,
{
    Fp::from(x)
}

/// Relies on `<Fp as PrimeField>::to_repr`, which lays the canonical
/// representative out as little-endian bytes: byte zero is the
/// representative reduced modulo 256.
#[verifier::external_body]
pub(crate) fn fp_low_byte(f: &Fp) -> (r: u8)
    ensures
        r as nat == fp_value(*f) % 256,
{
    f.to_repr()[0]
}

impl BackendParams {
    /// Relies on `Params::<EqAffine>::new`, which builds commitment bases
    /// for a domain of `2^k` rows. The bound on `k` keeps the backend's
    /// allocation of `2^k` curve points within this machine's memory.
    #[verifier::external_body]
    pub fn setup(k: u32) -> (r: BackendParams)
        requires
            k <= 24,
    {
        BackendParams { params: Params::new(k) }
    }
}

/// Relies on `halo2_proofs::plonk::keygen_vk`: it derives the verifying
/// key for the circuit's shape, or reports why the constraint system
/// cannot be built over these parameters.
#[verifier::external_body]
pub(crate) fn backend_keygen_vk<ConcreteCircuit: Circuit<Fp>>(
    params: &BackendParams,
    circuit: &ConcreteCircuit,
) -> (r: Result<BackendVerifyingKey, PlonkError>)
{
    match halo2_proofs::plonk::keygen_vk(&params.params, circuit) {
        Ok(vk) => Ok(BackendVerifyingKey { vk }),
        Err(e) => Err(e),
    }
}

/// Relies on `halo2_proofs::plonk::keygen_pk`: it derives the proving key
/// matching an already-derived verifying key for the same circuit shape.
#[verifier::external_body]
pub(crate) fn backend_keygen_pk<ConcreteCircuit: Circuit<Fp>>(
    params: &BackendParams,
    vk: &BackendVerifyingKey,
    circuit: &ConcreteCircuit,
) -> (r: Result<BackendProvingKey, PlonkError>)
{
    match halo2_proofs::plonk::keygen_pk(&params.params, vk.vk.clone(), circuit) {
        Ok(pk) => Ok(BackendProvingKey { pk }),
        Err(e) => Err(e),
    }
}

/// Relies on `halo2_proofs::plonk::create_proof`, fed by a fresh
/// `Blake2bWrite` transcript whose `finalize` hands back the proof bytes.
/// Each call draws its blinding randomness from `OsRng`, the operating
/// system's cryptographically secure source, so no randomness is ever
/// reused across two proofs. The result depends on that randomness, so
/// nothing is promised of the bytes that come back.
#[verifier::external_body]
pub(crate) fn backend_create_proof<ConcreteCircuit: Circuit<Fp>>(
    params: &BackendParams,
    pk: &BackendProvingKey,
    circuit: &ConcreteCircuit,
) -> (r: Result<Vec<u8>, PlonkError>)
{
    let mut transcript = Blake2bWrite::<Vec<u8>, EqAffine, Challenge255<EqAffine>>::init(vec![]);
    halo2_proofs::plonk::create_proof(
        &params.params,
        &pk.pk,
        std::slice::from_ref(circuit),
        &[&[]],
        OsRng,
        &mut transcript,
    )?;
    Ok(transcript.finalize())
}

/// The backend verifier's answer for one proof transcript: a function of
/// the parameter set, the verifying key and the proof bytes alone, since
/// the verify path recomputes the transcript deterministically and draws
/// no randomness.
pub uninterp spec fn verify_outcome_of(
    params: BackendParams,
    vk: BackendVerifyingKey,
    proof: Seq<u8>,
) -> VerifyOutcome;

/// Relies on `halo2_proofs::plonk::verify_proof` over a `Blake2bRead`
/// transcript and a `SingleVerifier` strategy, which rederive the
/// challenges from the proof's committed values alone: the answer is
/// deterministic in parameters, key and proof bytes, and is named
/// `verify_outcome_of`. The backend reports a transcript (parse) error
/// for bytes it cannot read as commitments and any other error for a
/// well-formed transcript whose checks fail; the two are told apart
/// here, moving no other information.
#[verifier::external_body]
pub(crate) fn backend_verify(
    params: &BackendParams,
    vk: &BackendVerifyingKey,
    proof: &[u8],
) -> (r: VerifyOutcome)
    ensures
        r == verify_outcome_of(*params, *vk, proof@),
{
    let mut transcript = Blake2bRead::<_, EqAffine, Challenge255<EqAffine>>::init(proof);
    let strategy = halo2_proofs::plonk::SingleVerifier::new(&params.params);
    match halo2_proofs::plonk::verify_proof(&params.params, &vk.vk, strategy, &[&[]], &mut transcript) {
        Ok(_) => VerifyOutcome::Valid,
        Err(PlonkError::Transcript(_)) => VerifyOutcome::Malformed,
        Err(_) => VerifyOutcome::Invalid,
    }
}

} // verus!
