use ark_bn254::{Bn254, Fr};
use ark_crypto_primitives::snark::{CircuitSpecificSetupSNARK, SNARK};
use ark_groth16::Groth16;
use ark_relations::r1cs::{
    ConstraintSynthesizer, ConstraintSystemRef, LinearCombination, SynthesisError, Variable,
};
use ark_serialize::CanonicalSerialize;
use ark_std::rand::rngs::StdRng;
use ark_std::rand::SeedableRng;
use groth16_bn254::groth16::PreparedVerifyingKey;
use groth16_bn254::error::VerificationFailure;
use groth16_bn254::{
    prepare_pvk_bytes, verify_groth16, verify_groth16_in_bytes, Groth16Error, Scalar, SCALAR_SIZE,
};

/// Two public inputs `x1 = a * b` and `x2 = a + b` over private `a`, `b`.
#[derive(Clone)]
struct ProductSum {
    a: Option<Fr>,
    b: Option<Fr>,
}

impl ConstraintSynthesizer<Fr> for ProductSum {
    fn generate_constraints(self, cs: ConstraintSystemRef<Fr>) -> Result<(), SynthesisError> {
        let a_val = self.a;
        let b_val = self.b;
        let a = cs.new_witness_variable(|| a_val.ok_or(SynthesisError::AssignmentMissing))?;
        let b = cs.new_witness_variable(|| b_val.ok_or(SynthesisError::AssignmentMissing))?;
        let x1 = cs.new_input_variable(|| {
            Ok(a_val.ok_or(SynthesisError::AssignmentMissing)?
                * b_val.ok_or(SynthesisError::AssignmentMissing)?)
        })?;
        let x2 = cs.new_input_variable(|| {
            Ok(a_val.ok_or(SynthesisError::AssignmentMissing)?
                + b_val.ok_or(SynthesisError::AssignmentMissing)?)
        })?;
        cs.enforce_constraint(
            LinearCombination::from(a),
            LinearCombination::from(b),
            LinearCombination::from(x1),
        )?;
        cs.enforce_constraint(
            LinearCombination::from(a) + b,
            LinearCombination::from(Variable::One),
            LinearCombination::from(x2),
        )?;
        Ok(())
    }
}

struct Fixture {
    vk_bytes: Vec<u8>,
    pvk: Vec<Vec<u8>>,
    inputs: Vec<u8>,
    proof: Vec<u8>,
}

fn encode<T: CanonicalSerialize>(t: &T) -> Vec<u8> {
    let mut out = Vec::new();
    t.serialize_compressed(&mut out).unwrap();
    out
}

fn fixture() -> Fixture {
    let mut rng = StdRng::seed_from_u64(7);
    let a = Fr::from(3u64);
    let b = Fr::from(5u64);
    let empty = ProductSum { a: None, b: None };
    let (pk, vk) = Groth16::<Bn254>::setup(empty, &mut rng).unwrap();
    let proof = Groth16::<Bn254>::prove(&pk, ProductSum { a: Some(a), b: Some(b) }, &mut rng).unwrap();
    assert_eq!(vk.gamma_abc_g1.len(), 3);
    let vk_bytes = encode(&vk);
    let pvk = prepare_pvk_bytes(&vk_bytes).unwrap();
    let mut inputs = encode(&(a * b));
    inputs.extend(encode(&(a + b)));
    Fixture { vk_bytes, pvk, inputs, proof: encode(&proof) }
}

fn run(f: &Fixture, inputs: &[u8], proof: &[u8]) -> Result<bool, Groth16Error> {
    verify_groth16_in_bytes(&f.pvk[0], &f.pvk[1], &f.pvk[2], &f.pvk[3], inputs, proof)
}

fn scalar_bytes(v: u64) -> Vec<u8> {
    let mut out = v.to_le_bytes().to_vec();
    out.resize(SCALAR_SIZE, 0);
    out
}

/// The scalar-field order, little-endian.
fn modulus_bytes() -> Vec<u8> {
    let mut out = encode(&(Fr::from(0u64) - Fr::from(1u64)));
    out[0] += 1;
    out
}

#[test]
fn genuine_proof_verifies() {
    let f = fixture();
    assert_eq!(f.pvk.len(), 4);
    assert_eq!(f.pvk[0].len(), 3 * 32);
    assert_eq!(f.proof.len(), 128);
    assert!(matches!(run(&f, &f.inputs, &f.proof), Ok(true)));
}

#[test]
fn genuine_proof_verifies_with_decoded_inputs() {
    let f = fixture();
    let x = vec![
        Scalar::from_bytes(&f.inputs[..32]).unwrap(),
        Scalar::from_bytes(&f.inputs[32..]).unwrap(),
    ];
    let r = verify_groth16(&f.pvk[0], &f.pvk[1], &f.pvk[2], &f.pvk[3], &x, &f.proof);
    assert!(matches!(r, Ok(true)));
}

#[test]
fn other_inputs_give_false() {
    let f = fixture();
    let mut inputs = scalar_bytes(15);
    inputs.extend(scalar_bytes(9));
    assert!(matches!(run(&f, &inputs, &f.proof), Ok(false)));
}

#[test]
fn prepare_is_deterministic() {
    let f = fixture();
    let again = prepare_pvk_bytes(&f.vk_bytes).unwrap();
    assert_eq!(f.pvk, again);
}

#[test]
fn prepared_key_round_trips() {
    let f = fixture();
    let k = PreparedVerifyingKey::deserialize(&f.pvk[0], &f.pvk[1], &f.pvk[2], &f.pvk[3]).unwrap();
    assert_eq!(k.bases_len(), 3);
    assert_eq!(k.as_serialized(), f.pvk);
}

#[test]
fn scalar_round_trips() {
    let f = fixture();
    for chunk in f.inputs.chunks(32) {
        assert_eq!(Scalar::from_bytes(chunk).unwrap().to_bytes(), chunk.to_vec());
    }
    let mut top = modulus_bytes();
    top[0] -= 1;
    assert_eq!(Scalar::from_bytes(&top).unwrap().as_bytes(), &top[..]);
}

#[test]
fn scalar_at_or_above_modulus_is_rejected() {
    assert!(matches!(Scalar::from_bytes(&modulus_bytes()), Err(Groth16Error::InvalidEncoding)));
    assert!(matches!(Scalar::from_bytes(&[0xff; 32]), Err(Groth16Error::InvalidEncoding)));
    assert!(matches!(Scalar::from_bytes(&[0u8; 31]), Err(Groth16Error::InvalidEncoding)));
    assert!(Scalar::from_bytes(&[0u8; 32]).is_ok());
}

#[test]
fn non_canonical_public_input_is_rejected() {
    let f = fixture();
    let mut inputs = f.inputs.clone();
    inputs[32..].copy_from_slice(&modulus_bytes());
    assert!(matches!(run(&f, &inputs, &f.proof), Err(Groth16Error::InvalidEncoding)));
}

#[test]
fn input_length_not_multiple_of_scalar_size() {
    let f = fixture();
    for n in [1usize, 31, 33, 63, 65] {
        let inputs = vec![0u8; n];
        assert!(matches!(
            run(&f, &inputs, &f.proof),
            Err(Groth16Error::InputLengthWrong(32))
        ));
    }
}

#[test]
fn public_input_count_mismatch() {
    let f = fixture();
    assert!(matches!(
        run(&f, &f.inputs[..32], &f.proof),
        Err(Groth16Error::PublicInputCountMismatch)
    ));
    let mut three = f.inputs.clone();
    three.extend(scalar_bytes(1));
    assert!(matches!(run(&f, &three, &f.proof), Err(Groth16Error::PublicInputCountMismatch)));
    assert!(matches!(run(&f, &[], &f.proof), Err(Groth16Error::PublicInputCountMismatch)));
}

#[test]
fn mutated_proof_c_never_verifies() {
    let f = fixture();
    for i in [96usize, 100, 111, 120, 127] {
        for mask in [0x01u8, 0x80] {
            let mut proof = f.proof.clone();
            proof[i] ^= mask;
            let r = run(&f, &f.inputs, &proof);
            assert!(matches!(r, Ok(false) | Err(Groth16Error::InvalidEncoding)));
        }
    }
}

#[test]
fn flipped_low_bit_of_proof_a_never_verifies() {
    let f = fixture();
    assert!(matches!(run(&f, &f.inputs, &f.proof), Ok(true)));
    let mut proof = f.proof.clone();
    proof[0] ^= 1;
    let r = run(&f, &f.inputs, &proof);
    assert!(matches!(r, Ok(false) | Err(Groth16Error::InvalidEncoding)));
}

#[test]
fn proof_with_wrong_length_is_rejected() {
    let f = fixture();
    let short = &f.proof[..127];
    assert!(matches!(run(&f, &f.inputs, short), Err(Groth16Error::InvalidEncoding)));
    let mut long = f.proof.clone();
    long.push(0);
    assert!(matches!(run(&f, &f.inputs, &long), Err(Groth16Error::InvalidEncoding)));
}

#[test]
fn malformed_prepared_key_is_rejected() {
    let f = fixture();
    let r = verify_groth16_in_bytes(&f.pvk[0][..95], &f.pvk[1], &f.pvk[2], &f.pvk[3], &f.inputs, &f.proof);
    assert!(matches!(r, Err(Groth16Error::InvalidEncoding)));
    let r = verify_groth16_in_bytes(&f.pvk[0], &f.pvk[1][..10], &f.pvk[2], &f.pvk[3], &f.inputs, &f.proof);
    assert!(matches!(r, Err(Groth16Error::InvalidEncoding)));
    let r = verify_groth16_in_bytes(&f.pvk[0], &f.pvk[1], &[], &f.pvk[3], &f.inputs, &f.proof);
    assert!(matches!(
        r,
        Err(Groth16Error::VerificationError(VerificationFailure::IncompletePreparedPoint))
    ));
    let mut bad_coefficient = f.pvk[3].clone();
    for byte in bad_coefficient[8..40].iter_mut() {
        *byte = 0xff;
    }
    let r = verify_groth16_in_bytes(&f.pvk[0], &f.pvk[1], &f.pvk[2], &bad_coefficient, &f.inputs, &f.proof);
    assert!(matches!(r, Err(Groth16Error::InvalidEncoding)), "{:?}", r);
}

#[test]
fn malformed_verifying_key_is_rejected() {
    assert!(matches!(prepare_pvk_bytes(&[]), Err(Groth16Error::InvalidEncoding)));
    assert!(matches!(prepare_pvk_bytes(&[0xffu8; 300]), Err(Groth16Error::InvalidEncoding)));
    let f = fixture();
    assert!(matches!(prepare_pvk_bytes(&f.vk_bytes[..100]), Err(Groth16Error::InvalidEncoding)));
}

#[test]
fn incomplete_prepared_point_is_an_internal_error() {
    let f = fixture();
    let gamma_abc = &f.pvk[0][..32];
    let alpha_beta = vec![0u8; 384];
    let short = vec![0u8; 9];
    let mut proof = vec![0u8; 128];
    proof[31] = 0x40;
    proof[95] = 0x40;
    proof[127] = 0x40;
    let r = verify_groth16_in_bytes(gamma_abc, &alpha_beta, &short, &short, &[], &proof);
    assert!(
        matches!(
            r,
            Err(Groth16Error::VerificationError(VerificationFailure::IncompletePreparedPoint))
        ),
        "{:?}",
        r
    );
    let mut truncated = f.pvk[2].clone();
    truncated.truncate(f.pvk[2].len() - 193);
    truncated[0] -= 1;
    truncated.push(0);
    let r = verify_groth16_in_bytes(&f.pvk[0], &f.pvk[1], &truncated, &f.pvk[3], &f.inputs, &f.proof);
    assert!(matches!(r, Err(Groth16Error::VerificationError(_))), "{:?}", r);
}

#[test]
fn prepared_point_at_infinity_is_accepted() {
    let f = fixture();
    let mut infinity = vec![0u8; 8];
    infinity.push(1);
    let k = PreparedVerifyingKey::deserialize(&f.pvk[0], &f.pvk[1], &infinity, &f.pvk[3]).unwrap();
    assert_eq!(k.bases_len(), 3);
    assert!(matches!(run(&f, &f.inputs, &f.proof), Ok(true)));
    let r = verify_groth16_in_bytes(&f.pvk[0], &f.pvk[1], &infinity, &f.pvk[3], &f.inputs, &f.proof);
    assert!(matches!(r, Ok(false)));
}

#[test]
fn prepared_buffers_have_full_size() {
    let f = fixture();
    assert_eq!(f.pvk[1].len(), 384);
    assert_eq!(f.pvk[2].len(), 17481);
    assert_eq!(f.pvk[3].len(), 17481);
    assert_eq!(f.pvk[2][0], 91);
}

#[test]
fn non_canonical_infinity_in_proof_is_rejected() {
    let f = fixture();
    let mut proof = f.proof.clone();
    for byte in proof[..32].iter_mut() {
        *byte = 0;
    }
    proof[31] = 0x40;
    let r = run(&f, &f.inputs, &proof);
    assert!(matches!(r, Ok(false)), "{:?}", r);
    proof[0] = 1;
    let r = run(&f, &f.inputs, &proof);
    assert!(matches!(r, Err(Groth16Error::InvalidEncoding)), "{:?}", r);
}

#[test]
fn non_canonical_infinity_in_key_bases_is_rejected() {
    let f = fixture();
    let mut gamma_abc = f.pvk[0].clone();
    gamma_abc[32..64].copy_from_slice(&[0u8; 32]);
    gamma_abc[63] = 0x40;
    gamma_abc[32] = 7;
    let r = verify_groth16_in_bytes(&gamma_abc, &f.pvk[1], &f.pvk[2], &f.pvk[3], &f.inputs, &f.proof);
    assert!(matches!(r, Err(Groth16Error::InvalidEncoding)), "{:?}", r);
}

#[test]
fn first_prepared_buffer_is_the_key_bases() {
    let f = fixture();
    assert_eq!(f.pvk[0], f.vk_bytes[232..232 + 96].to_vec());
    assert_eq!(f.vk_bytes[224], 3);
}

#[test]
fn short_verifying_key_is_rejected() {
    let f = fixture();
    for n in [0usize, 1, 200, 231, 232] {
        assert!(matches!(prepare_pvk_bytes(&f.vk_bytes[..n]), Err(Groth16Error::InvalidEncoding)));
    }
}

#[test]
fn repeated_verification_agrees() {
    let f = fixture();
    let first = run(&f, &f.inputs, &f.proof);
    let second = run(&f, &f.inputs, &f.proof);
    assert!(matches!((first, second), (Ok(true), Ok(true))));
}
