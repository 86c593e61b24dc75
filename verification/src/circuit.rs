//! Circuit definition: the declared relation and its witness assignment,
//! modelled as plain data.
//!
//! The relation is fixed and minimal: one advice column and one boolean
//! selector, with a single gate demanding that on every selector-enabled
//! row the advice value is the additive identity.
//! The witness assignment enables the selector on the first row only and
//! places each witness value on successive rows in input order, so an
//! instance satisfies the relation exactly when its first witness value,
//! if it has one, is zero. The relation is illustrative: it encodes no
//! integrity property of ledger contents.

use vstd::prelude::*;

verus! {

use halo2_proofs::pasta::Fp;
use crate::backend::{fp_from_u64, fp_value};

/// The relation's shape independent of any witness: how many advice
/// columns and selectors the constraint system declares. A key pair is
/// bound to the shape it was derived for.
#[derive(Clone, Copy, Debug, PartialEq, Eq, Structural)]
pub struct CircuitShape {
    pub advice_columns: u64,
    pub selectors: u64,
}

/// The shape of the one relation this crate declares.
pub fn declared_shape() -> (r: CircuitShape)
    ensures
        r == (CircuitShape { advice_columns: 1, selectors: 1 }),
{
    CircuitShape { advice_columns: 1, selectors: 1 }
}

/// The declared gate over a witness assignment: on every selector-enabled
/// row the advice value is zero. The selector is enabled on the first row
/// only, and a row left unassigned carries the additive identity.
pub open spec fn gate_satisfied(witness: Seq<nat>) -> bool {
    witness.len() == 0 || witness[0] == 0
}

/// A circuit shape together with one concrete witness assignment, each
/// witness value given by its canonical field representative.
pub struct CircuitInstance {
    pub shape: CircuitShape,
    pub witness: Vec<u64>,
}

impl View for CircuitInstance {
    type V = Seq<nat>;

    open spec fn view(&self) -> Seq<nat> {
        self.witness@.map(|_i: int, x: u64| x as nat)
    }
}

impl CircuitInstance {
    pub fn new(shape: CircuitShape, witness: Vec<u64>) -> (r: Self)
        ensures
            r.shape == shape,
            r@ == witness@.map(|_i: int, x: u64| x as nat),
    {
        CircuitInstance { shape, witness }
    }

    /// Decides the declared relation for this instance's witness.
    pub fn satisfies_gate(&self) -> (r: bool)
        ensures
            r == gate_satisfied(self@),
    {
        self.witness.len() == 0 || self.witness[0] == 0
    }

    /// Embeds the witness into the field, in order: element `i` of the
    /// result represents witness value `i`.
    pub fn to_field_elements(&self) -> (r: Vec<Fp>)
        ensures
            r@.len() == self@.len(),
            forall|i: int| 0 <= i < r@.len() ==> fp_value(r@[i]) == self@[i],
    {
        let mut elems: Vec<Fp> = Vec::new();
        let mut i: usize = 0;
        while i < self.witness.len()
            invariant
                i <= self.witness.len(),
                elems@.len() == i as nat,
                forall|j: int| 0 <= j < i ==> fp_value(elems@[j]) == self@[j],
            decreases self.witness.len() - i,
        {
            let f = fp_from_u64(self.witness[i]);
            elems.push(f);
            i = i + 1;
        }
        elems
    }
}

} // verus!
