use halo2_proofs::circuit::{Layouter, SimpleFloorPlanner, Value};
use halo2_proofs::pasta::Fp;
use halo2_proofs::plonk::{Advice, Circuit, Column, ConstraintSystem, Error, Selector};
use halo2_proofs::poly::Rotation;

use zkit::backend::BackendParams;
use zkit::circuit::{declared_shape, CircuitInstance, CircuitShape};
use zkit::session::{ZkError, ZKIT};

#[derive(Clone)]
struct ExampleConfig {
    input: Column<Advice>,
    s: Selector,
}

struct ExampleCircuit {
    data: Vec<Fp>,
}

impl Circuit<Fp> for ExampleCircuit {
    type Config = ExampleConfig;
    type FloorPlanner = SimpleFloorPlanner;

    fn without_witnesses(&self) -> Self {
        ExampleCircuit { data: vec![] }
    }

    fn configure(meta: &mut ConstraintSystem<Fp>) -> Self::Config {
        let input = meta.advice_column();
        let s = meta.selector();

        meta.create_gate("data processing", |v_cells| {
            let input_exp = v_cells.query_advice(input, Rotation::cur());
            let s = v_cells.query_selector(s);

            vec![s * input_exp]
        });

        ExampleConfig { input, s }
    }

    fn synthesize(
        &self,
        config: Self::Config,
        mut layouter: impl Layouter<Fp>,
    ) -> Result<(), Error> {
        layouter.assign_region(
            || "data processing",
            |mut region| {
                config.s.enable(&mut region, 0)?;

                for (idx, &value) in self.data.iter().enumerate() {
                    region.assign_advice(|| "input", config.input, idx, || Value::known(value))?;
                }

                Ok(())
            },
        )
    }
}

fn circuit_for(instance: &CircuitInstance) -> ExampleCircuit {
    ExampleCircuit { data: instance.to_field_elements() }
}

fn ready_zkit(instance: &CircuitInstance) -> ZKIT {
    let mut z = ZKIT::new(BackendParams::setup(4));
    z.setup_keys(instance.shape, &circuit_for(instance)).unwrap();
    z
}

#[test]
fn prove_and_verify_before_keygen_fail() {
    let z = ZKIT::new(BackendParams::setup(4));
    let instance = CircuitInstance::new(declared_shape(), vec![0, 2, 3]);
    let r = z.create_proof(instance.shape, &circuit_for(&instance));
    assert_eq!(r.unwrap_err(), ZkError::KeyNotInitialized);
    assert_eq!(z.verify_proof(&[]).unwrap_err(), ZkError::KeyNotInitialized);
}

#[test]
fn satisfied_witness_verifies_true() {
    // Zero wherever the selector is enabled (the first row).
    let instance = CircuitInstance::new(declared_shape(), vec![0, 2, 3]);
    assert!(instance.satisfies_gate());
    let z = ready_zkit(&instance);
    let proof = z.create_proof(instance.shape, &circuit_for(&instance)).unwrap();
    assert_eq!(z.verify_proof(&proof), Ok(true));
}

#[test]
fn empty_witness_verifies_true() {
    let instance = CircuitInstance::new(declared_shape(), vec![]);
    assert!(instance.satisfies_gate());
    let z = ready_zkit(&instance);
    let proof = z.create_proof(instance.shape, &circuit_for(&instance)).unwrap();
    assert_eq!(z.verify_proof(&proof), Ok(true));
}

#[test]
fn unsatisfied_witness_never_verifies_true() {
    // Nonzero on the selector-enabled row violates the declared gate:
    // proving either fails outright or yields a proof that checks false.
    let instance = CircuitInstance::new(declared_shape(), vec![1, 2, 3]);
    assert!(!instance.satisfies_gate());
    let z = ready_zkit(&instance);
    match z.create_proof(instance.shape, &circuit_for(&instance)) {
        Err(e) => assert_eq!(e, ZkError::ProofGenerationFailure),
        Ok(proof) => assert_eq!(z.verify_proof(&proof), Ok(false)),
    }
}

#[test]
fn tampered_proof_never_verifies_true() {
    let instance = CircuitInstance::new(declared_shape(), vec![0, 7, 9]);
    let z = ready_zkit(&instance);
    let proof = z.create_proof(instance.shape, &circuit_for(&instance)).unwrap();
    assert_eq!(z.verify_proof(&proof), Ok(true));
    for pos in [0, proof.len() / 2, proof.len() - 1] {
        let mut tampered = proof.clone();
        tampered[pos] ^= 0x01;
        assert_ne!(z.verify_proof(&tampered), Ok(true));
    }
}

#[test]
fn verification_is_deterministic() {
    // Checking the same bytes in the same state answers the same, for a
    // valid transcript and for a tampered one alike.
    let instance = CircuitInstance::new(declared_shape(), vec![0, 4]);
    let z = ready_zkit(&instance);
    let proof = z.create_proof(instance.shape, &circuit_for(&instance)).unwrap();
    assert_eq!(z.verify_proof(&proof), z.verify_proof(&proof));
    let mut tampered = proof.clone();
    tampered[0] ^= 0x01;
    assert_eq!(z.verify_proof(&tampered), z.verify_proof(&tampered));
}

#[test]
fn malformed_proof_is_a_format_error() {
    let instance = CircuitInstance::new(declared_shape(), vec![0]);
    let z = ready_zkit(&instance);
    assert_eq!(z.verify_proof(&[1, 2, 3]).unwrap_err(), ZkError::ProofFormatError);
    assert_eq!(z.verify_proof(&[]).unwrap_err(), ZkError::ProofFormatError);
}

#[test]
fn mismatched_shape_is_rejected() {
    let instance = CircuitInstance::new(declared_shape(), vec![0, 2]);
    let z = ready_zkit(&instance);
    let other = CircuitShape { advice_columns: 2, selectors: 1 };
    let r = z.create_proof(other, &circuit_for(&instance));
    assert_eq!(r.unwrap_err(), ZkError::ConfigurationError);
}

#[test]
fn setup_keys_is_a_no_op_once_ready() {
    let instance = CircuitInstance::new(declared_shape(), vec![0, 2]);
    let mut z = ready_zkit(&instance);
    assert_eq!(z.setup_keys(instance.shape, &circuit_for(&instance)), Ok(()));
    let proof = z.create_proof(instance.shape, &circuit_for(&instance)).unwrap();
    assert_eq!(z.verify_proof(&proof), Ok(true));
}
