//! The two entry points: prepare a verifying key once, verify many proofs.
use crate::curve::{
    decode_g1, decode_g2, g1_accepts, g2_negated, groth16_result, is_canonical_point, pairing_model,
    prepare_model, vk_accepts, vk_base_count,
};
use crate::error::Groth16Error;
use crate::groth16::{
    canonical_point, decode_g1_sequence, follows_check, g1_chunks, g1_sequence_decodes,
    lemma_equal_chunks,
    prepared_key_error, proof_decodes, PreparedVerifyingKey, Proof, VerifyingKey,
};
use vstd::slice::slice_subrange;
use crate::scalar::{
    chunk, decode_scalar_sequence, is_scalar_encoding, le_value, scalar_chunks, scalar_views,
    Scalar, SCALAR_SIZE,
};
use vstd::prelude::*;

verus! {

/// Every 32-byte chunk of `b` is a canonical scalar.
pub open spec fn scalar_chunks_decode(b: Seq<u8>) -> bool {
    forall|i: int|
        0 <= i < b.len() / SCALAR_SIZE as nat ==> #[trigger] is_scalar_encoding(
            chunk(b, i, SCALAR_SIZE as int),
        )
}

/// What `verify_groth16` owes for a prepared key in four buffers, the
/// encodings of the public inputs and a proof encoding: the first failing
/// stage decides the error; when every stage passes, the pairing check
/// decides.
pub open spec fn verify_outcome(
    gamma_abc: Seq<u8>,
    alpha_beta: Seq<u8>,
    gamma_pc: Seq<u8>,
    delta_pc: Seq<u8>,
    inputs: Seq<Seq<u8>>,
    proof: Seq<u8>,
    r: Result<bool, Groth16Error>,
) -> bool {
    match prepared_key_error(gamma_abc, alpha_beta, gamma_pc, delta_pc) {
        Some(e) => r == Err::<bool, Groth16Error>(e),
        None => if !proof_decodes(proof) {
            r == Err::<bool, Groth16Error>(Groth16Error::InvalidEncoding)
        } else if inputs.len() + 1 != gamma_abc.len() / 32 {
            r == Err::<bool, Groth16Error>(Groth16Error::PublicInputCountMismatch)
        } else {
            follows_check(
                groth16_result(g1_chunks(gamma_abc), alpha_beta, gamma_pc, delta_pc, inputs, proof),
                r,
            )
        },
    }
}

/// Number of `gamma_abc_g1` points that a verifying key encoding declares.
pub open spec fn vk_bases(b: Seq<u8>) -> nat {
    le_value(b.subrange(224, 232))
}

/// The encoding of the `gamma_abc_g1` points of a verifying key.
pub open spec fn vk_bases_bytes(b: Seq<u8>) -> Seq<u8> {
    b.subrange(232, 232 + 32 * vk_bases(b) as int)
}

/// Every point of a verifying key encoding is in canonical form.
pub open spec fn vk_canonical(b: Seq<u8>) -> bool {
    &&& canonical_point(b.subrange(0, 32))
    &&& canonical_point(b.subrange(32, 96))
    &&& canonical_point(b.subrange(96, 160))
    &&& canonical_point(b.subrange(160, 224))
    &&& forall|i: int|
        0 <= i < vk_bases(b) ==> #[trigger] canonical_point(chunk(vk_bases_bytes(b), i, 32))
}

/// The two call shapes share one check: when the public-input bytes decode to
/// the scalars `xs`, the byte form is owed exactly what the scalar form is
/// owed for `xs`.
pub proof fn lemma_input_forms_agree(
    gamma_abc: Seq<u8>,
    alpha_beta: Seq<u8>,
    gamma_pc: Seq<u8>,
    delta_pc: Seq<u8>,
    input_bytes: Seq<u8>,
    xs: Seq<Scalar>,
    proof: Seq<u8>,
    r: Result<bool, Groth16Error>,
)
    requires
        scalar_views(xs) == scalar_chunks(input_bytes),
    ensures
        verify_outcome(gamma_abc, alpha_beta, gamma_pc, delta_pc, scalar_chunks(input_bytes), proof, r)
            == verify_outcome(gamma_abc, alpha_beta, gamma_pc, delta_pc, scalar_views(xs), proof, r),
{
}

/// Decodes a compressed verifying key and returns the four components of its
/// prepared form, in the order `[vk_gamma_abc_g1, alpha_g1_beta_g2,
/// gamma_g2_neg_pc, delta_g2_neg_pc]`. Every point of the key must be in its
/// canonical encoding.
pub fn prepare_pvk_bytes(vk_bytes: &[u8]) -> (r: Result<Vec<Vec<u8>>, Groth16Error>)
    ensures
        !(vk_accepts(vk_bytes@) && vk_canonical(vk_bytes@)) ==> r == Err::<Vec<Vec<u8>>, Groth16Error>(
            Groth16Error::InvalidEncoding,
        ),
        r is Ok ==> vk_bytes@.len() >= 232 + 32 * vk_bases(vk_bytes@),
        vk_accepts(vk_bytes@) && vk_canonical(vk_bytes@) ==> (r matches Ok(v) && {
            &&& v@.len() == 4
            &&& v@[0]@ == vk_bases_bytes(vk_bytes@)
            &&& v@[1]@ == pairing_model(vk_bytes@.subrange(0, 32), vk_bytes@.subrange(32, 96))
            &&& v@[2]@ == prepare_model(g2_negated(vk_bytes@.subrange(96, 160)))
            &&& v@[3]@ == prepare_model(g2_negated(vk_bytes@.subrange(160, 224)))
            &&& prepared_key_error(v@[0]@, v@[1]@, v@[2]@, v@[3]@) is None
        }),
{
    let n: usize = match vk_base_count(vk_bytes) {
        Ok(n) => n,
        Err(_) => {
            return Err(Groth16Error::InvalidEncoding);
        },
    };
    let sa = slice_subrange(vk_bytes, 0, 32);
    let sb = slice_subrange(vk_bytes, 32, 96);
    let sg = slice_subrange(vk_bytes, 96, 160);
    let sd = slice_subrange(vk_bytes, 160, 224);
    if !is_canonical_point(sa) || !is_canonical_point(sb) || !is_canonical_point(sg)
        || !is_canonical_point(sd) {
        return Err(Groth16Error::InvalidEncoding);
    }
    let len: usize = vk_bytes.len();
    proof {
        assert(232 + 32 * n <= len);
    }
    let seg = slice_subrange(vk_bytes, 232, 232 + 32 * n);
    proof {
        assert(seg@ == vk_bases_bytes(vk_bytes@));
        vstd::arithmetic::div_mod::lemma_mod_multiples_basic(n as int, 32);
        vstd::arithmetic::div_mod::lemma_div_multiples_vanish(n as int, 32);
    }
    let gamma_abc_g1 = match decode_g1_sequence(seg) {
        Ok(v) => v,
        Err(e) => {
            proof {
                if vk_canonical(vk_bytes@) {
                    assert(g1_sequence_decodes(seg@));
                }
            }
            return Err(e);
        },
    };
    proof {
        assert forall|i: int| 0 <= i < n implies #[trigger] canonical_point(
            chunk(vk_bases_bytes(vk_bytes@), i, 32),
        ) by {
            assert(g1_accepts(chunk(seg@, i, 32)));
        }
        assert(vk_canonical(vk_bytes@));
    }
    let (alpha_g1, beta_g2, gamma_g2, delta_g2) = match (
        decode_g1(sa),
        decode_g2(sb),
        decode_g2(sg),
        decode_g2(sd),
    ) {
        (Ok(a), Ok(b), Ok(g), Ok(d)) => (a, b, g, d),
        _ => {
            return Err(Groth16Error::InvalidEncoding);
        },
    };
    let vk = VerifyingKey { alpha_g1, beta_g2, gamma_g2, delta_g2, gamma_abc_g1 };
    let pvk = PreparedVerifyingKey::from_vk(vk);
    let v = pvk.as_serialized();
    proof {
        assert(g1_chunks(v@[0]@) == g1_chunks(seg@));
        assert(v@[0]@.len() == 32 * n);
        assert forall|i: int| 0 <= i < n implies #[trigger] chunk(v@[0]@, i, 32) == chunk(
            seg@,
            i,
            32,
        ) by {
            assert(g1_chunks(v@[0]@)[i] == g1_chunks(seg@)[i]);
        }
        lemma_equal_chunks(v@[0]@, seg@, n as nat);
    }
    Ok(v)
}

/// Verifies a proof against a prepared key in four buffers, with the public
/// inputs given as concatenated 32-byte canonical scalars. Once the inputs
/// decode, the answer is that of `verify_groth16` on the decoded scalars.
pub fn verify_groth16_in_bytes(
    vk_gamma_abc_g1_bytes: &[u8],
    alpha_g1_beta_g2_bytes: &[u8],
    gamma_g2_neg_pc_bytes: &[u8],
    delta_g2_neg_pc_bytes: &[u8],
    proof_public_inputs_as_bytes: &[u8],
    proof_points_as_bytes: &[u8],
) -> (r: Result<bool, Groth16Error>)
    ensures
        proof_public_inputs_as_bytes@.len() % SCALAR_SIZE as nat != 0 ==> (r matches Err(
            Groth16Error::InputLengthWrong(n),
        ) && n == SCALAR_SIZE),
        proof_public_inputs_as_bytes@.len() % SCALAR_SIZE as nat == 0 && !scalar_chunks_decode(
            proof_public_inputs_as_bytes@,
        ) ==> (r matches Err(e) && e is InvalidEncoding),
        proof_public_inputs_as_bytes@.len() % SCALAR_SIZE as nat == 0 && scalar_chunks_decode(
            proof_public_inputs_as_bytes@,
        ) ==> verify_outcome(
            vk_gamma_abc_g1_bytes@,
            alpha_g1_beta_g2_bytes@,
            gamma_g2_neg_pc_bytes@,
            delta_g2_neg_pc_bytes@,
            scalar_chunks(proof_public_inputs_as_bytes@),
            proof_points_as_bytes@,
            r,
        ),
{
    let x = decode_scalar_sequence(proof_public_inputs_as_bytes)?;
    verify_groth16(
        vk_gamma_abc_g1_bytes,
        alpha_g1_beta_g2_bytes,
        gamma_g2_neg_pc_bytes,
        delta_g2_neg_pc_bytes,
        x.as_slice(),
        proof_points_as_bytes,
    )
}

/// Verifies a proof against a prepared key in four buffers, with the public
/// inputs given as scalars.
pub fn verify_groth16(
    vk_gamma_abc_g1_bytes: &[u8],
    alpha_g1_beta_g2_bytes: &[u8],
    gamma_g2_neg_pc_bytes: &[u8],
    delta_g2_neg_pc_bytes: &[u8],
    proof_public_inputs: &[Scalar],
    proof_points_as_bytes: &[u8],
) -> (r: Result<bool, Groth16Error>)
    ensures
        verify_outcome(
            vk_gamma_abc_g1_bytes@,
            alpha_g1_beta_g2_bytes@,
            gamma_g2_neg_pc_bytes@,
            delta_g2_neg_pc_bytes@,
            scalar_views(proof_public_inputs@),
            proof_points_as_bytes@,
            r,
        ),
{
    let pvk = PreparedVerifyingKey::deserialize(
        vk_gamma_abc_g1_bytes,
        alpha_g1_beta_g2_bytes,
        gamma_g2_neg_pc_bytes,
        delta_g2_neg_pc_bytes,
    )?;
    let proof = Proof::from_bytes(proof_points_as_bytes)?;
    pvk.verify(proof_public_inputs, proof)
}

} // verus!
