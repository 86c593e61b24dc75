//! Field codec: raw bytes to field-element records and back.
//!
//! Encoding maps each byte to the field element whose canonical
//! representative is that byte's value; decoding narrows a representative
//! to its low eight bits. The round trip is exact precisely because
//! encoding restricts every representative to a single byte.

use vstd::prelude::*;

verus! {

use halo2_proofs::pasta::Fp;
use crate::backend::{fp_from_u64, fp_low_byte, fp_value};

/// The encoding of a byte sequence: each byte read as its canonical
/// field representative, order and count preserved.
pub open spec fn encode_spec(bytes: Seq<u8>) -> Seq<nat> {
    bytes.map(|_i: int, b: u8| b as nat)
}

/// The decoding of a representative sequence: each value narrowed to its
/// low eight bits. Lossy for representatives of 256 or more, which no
/// record produced by `ingest_and_compress` contains.
pub open spec fn decode_spec(elems: Seq<nat>) -> Seq<u8> {
    elems.map(|_i: int, v: nat| (v % 256) as u8)
}

/// An ordered record of field elements, one per encoded input byte.
pub struct CompressedData {
    data: Vec<Fp>,
}

impl View for CompressedData {
    type V = Seq<nat>;

    closed spec fn view(&self) -> Seq<nat> {
        self.data@.map(|_i: int, f: Fp| fp_value(f))
    }
}

impl CompressedData {
    /// Every element embeds a single byte.
    pub open spec fn wf(&self) -> bool {
        forall|i: int| 0 <= i < self@.len() ==> self@[i] < 256
    }

    pub fn new(data: Vec<Fp>) -> (r: Self)
        ensures
            r@ == data@.map(|_i: int, f: Fp| fp_value(f)),
    {
        CompressedData { data }
    }

    /// Narrows each element of the record back to a byte, in order.
    pub fn decompress(&self) -> (r: Vec<u8>)
        ensures
            r@ == decode_spec(self@),
    {
        let mut bytes: Vec<u8> = Vec::new();
        let mut i: usize = 0;
        while i < self.data.len()
            invariant
                i <= self.data.len(),
                bytes@.len() == i as nat,
                forall|j: int| 0 <= j < i ==> bytes@[j] as nat == self@[j] % 256,
            decreases self.data.len() - i,
        {
            let b = fp_low_byte(&self.data[i]);
            bytes.push(b);
            i = i + 1;
        }
        proof {
            assert(bytes@ =~= decode_spec(self@));
        }
        bytes
    }
}

/// Encodes each byte of `data` as a field element, in input order: the
/// record's representatives are exactly the byte values.
pub fn ingest_and_compress(data: Vec<u8>) -> (r: CompressedData)
    ensures
        r@ == encode_spec(data@),
        r.wf(),
{
    let mut elems: Vec<Fp> = Vec::new();
    let mut i: usize = 0;
    while i < data.len()
        invariant
            i <= data.len(),
            elems@.len() == i as nat,
            forall|j: int| 0 <= j < i ==> fp_value(elems@[j]) == data@[j] as nat,
        decreases data.len() - i,
    {
        let f = fp_from_u64(data[i] as u64);
        elems.push(f);
        i = i + 1;
    }
    let r = CompressedData { data: elems };
    proof {
        assert(r@ =~= encode_spec(data@));
    }
    r
}

/// Round trip: decoding an encoded byte sequence gives the bytes back,
/// exactly because every encoded representative is below 256.
pub proof fn lemma_encode_decode_roundtrip(bytes: Seq<u8>)
    ensures
        decode_spec(encode_spec(bytes)) == bytes,
{
    assert(decode_spec(encode_spec(bytes)) =~= bytes);
}

} // verus!
