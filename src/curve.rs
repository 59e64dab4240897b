//! The arkworks values that the library carries, and the trusted wrappers
//! through which it decodes, encodes and combines them.
//!
//! The arkworks curve and field types are generic over configuration traits
//! that Verus cannot take as bounds of a declared type, so each value is held
//! in a small opaque struct of this module and only its wrappers look inside.
//! Beside it each value carries a ghost model, its canonical compressed
//! encoding, which only the trusted wrappers of this module set.
use crate::groth16::{prepared_shape_ok, PreparedVerifyingKey, Proof};
use crate::scalar::{chunk, le_value, scalar_views, Scalar};
use ark_bn254::{Bn254, Fq12, Fr, G1Affine, G2Affine};
use ark_crypto_primitives::snark::SNARK;
use ark_ff::PrimeField;
use ark_groth16::Groth16;
use ark_relations::r1cs::SynthesisError;
use ark_ec::pairing::Pairing;
use ark_serialize::{CanonicalDeserialize, CanonicalSerialize, SerializationError};
use vstd::prelude::*;

verus! {

#[verifier::external_type_specification]
#[verifier::external_body]
pub struct ExSerializationError(ark_serialize::SerializationError);

#[verifier::external_type_specification]
#[verifier::external_body]
pub struct ExSynthesisError(SynthesisError);

/// Number of bytes in the compressed encoding of a G1 point.
pub const G1_SIZE: usize = 32;

/// Number of bytes in the compressed encoding of a G2 point.
pub const G2_SIZE: usize = 64;

/// Number of bytes in the compressed encoding of a target-field element.
pub const GT_SIZE: usize = 384;

/// `b` is accepted as a compressed G1 point: on the curve and in the
/// prime-order subgroup.
pub uninterp spec fn g1_accepts(b: Seq<u8>) -> bool;

/// `b` is accepted as a compressed G2 point: on the twist and in the
/// prime-order subgroup.
pub uninterp spec fn g2_accepts(b: Seq<u8>) -> bool;

/// The order of the BN254 base field.
pub open spec fn fq_modulus() -> nat {
    21888242871839275222246405745257275088696311157297823662689037894645226208583nat
}

/// The `count` 32-byte little-endian chunks of `b` from `start` on are all
/// below the base-field order.
pub open spec fn base_field_chunks(b: Seq<u8>, start: int, count: int) -> bool {
    forall|i: int|
        0 <= i < count ==> #[trigger] le_value(b.subrange(start + 32 * i, start + 32 * i + 32))
            < fq_modulus()
}

/// `b` begins with a compressed element of the pairing target field: twelve
/// base-field elements.
pub open spec fn gt_accepts(b: Seq<u8>) -> bool {
    b.len() >= GT_SIZE && base_field_chunks(b, 0, 12)
}

/// `b` begins with a compressed prepared G2 point: a little-endian `u64`
/// count `n`, `n` coefficients of six base-field elements each, and a flag
/// byte that is 0 or 1.
pub open spec fn g2_prepared_accepts(b: Seq<u8>) -> bool {
    let n = le_value(b.subrange(0, 8)) as int;
    &&& b.len() >= 8 + 192 * n + 1
    &&& base_field_chunks(b, 8, 6 * n)
    &&& b[8 + 192 * n] <= 1
}

/// `b` is accepted as a compressed verifying key whose points are on their
/// curves and in their subgroups.
pub uninterp spec fn vk_accepts(b: Seq<u8>) -> bool;

/// The encoding of the reduced pairing of the G1 point encoded by `a` with
/// the G2 point encoded by `b`.
pub uninterp spec fn pairing_model(a: Seq<u8>, b: Seq<u8>) -> Seq<u8>;

/// The encoding of the Miller-loop preparation of the G2 point encoded by `p`.
pub uninterp spec fn prepare_model(p: Seq<u8>) -> Seq<u8>;

/// The outcome of the Groth16 check on the prepared key with these base,
/// pairing and prepared-point encodings, the scalars with the given
/// encodings, and the proof with encoding `proof`: `Some` of the verdict, or
/// `None` when the check cannot complete.
pub uninterp spec fn groth16_result(
    bases: Seq<Seq<u8>>,
    alpha_beta: Seq<u8>,
    gamma_pc: Seq<u8>,
    delta_pc: Seq<u8>,
    inputs: Seq<Seq<u8>>,
    proof: Seq<u8>,
) -> Option<bool>;

/// The flag byte of a compressed point says "point at infinity".
pub open spec fn infinity_flag(last: u8) -> bool {
    0x40 <= last < 0x80
}

/// The canonical encoding of the point at infinity in `n` bytes.
pub open spec fn point_infinity(n: nat) -> Seq<u8> {
    Seq::new(n, |i: int| if i == n - 1 { 0x40u8 } else { 0u8 })
}

/// The canonical encoding of the point that the compressed encoding `b`
/// decodes to: the infinity flag ignores the coordinate bytes.
pub open spec fn point_model_of(b: Seq<u8>) -> Seq<u8> {
    if b.len() > 0 && infinity_flag(b.last()) {
        point_infinity(b.len())
    } else {
        b
    }
}

/// The encoding of the negation of the G2 point encoded by `b`: the same
/// coordinate with the sign flag turned over, or infinity unchanged.
pub open spec fn g2_negated(b: Seq<u8>) -> Seq<u8> {
    if infinity_flag(b[G2_SIZE - 1]) {
        b
    } else if b[G2_SIZE - 1] >= 0x80 {
        b.update(G2_SIZE - 1, (b[G2_SIZE - 1] - 0x80) as u8)
    } else {
        b.update(G2_SIZE - 1, (b[G2_SIZE - 1] + 0x80) as u8)
    }
}

#[verifier::external_body]
struct G1Raw {
    inner: G1Affine,
}

#[verifier::external_body]
struct G2Raw {
    inner: G2Affine,
}

#[verifier::external_body]
struct GtRaw {
    inner: Fq12,
}

#[verifier::external_body]
struct PreparedG2Raw {
    inner: ark_ec::bn::G2Prepared<ark_bn254::Config>,
}

/// A point of G1: on the curve and in its prime-order subgroup.
pub struct G1Point {
    raw: G1Raw,
    model: Ghost<Seq<u8>>,
}

/// A point of G2: on the twist and in its prime-order subgroup.
pub struct G2Point {
    raw: G2Raw,
    model: Ghost<Seq<u8>>,
}

/// An element of the pairing target group, such as `e(alpha, beta)`.
pub struct GtElement {
    raw: GtRaw,
    model: Ghost<Seq<u8>>,
}

/// A G2 point with its Miller-loop line coefficients precomputed.
pub struct PreparedG2 {
    raw: PreparedG2Raw,
    model: Ghost<Seq<u8>>,
}

impl G1Point {
    /// The canonical compressed encoding of this point.
    pub closed spec fn model(&self) -> Seq<u8> {
        self.model@
    }
}

impl G2Point {
    /// The canonical compressed encoding of this point.
    pub closed spec fn model(&self) -> Seq<u8> {
        self.model@
    }
}

impl GtElement {
    /// The compressed encoding of this element.
    pub closed spec fn model(&self) -> Seq<u8> {
        self.model@
    }
}

impl PreparedG2 {
    /// The compressed encoding of this prepared point.
    pub closed spec fn model(&self) -> Seq<u8> {
        self.model@
    }
}

/// The models of a sequence of G1 points.
pub open spec fn g1_models(s: Seq<G1Point>) -> Seq<Seq<u8>> {
    s.map_values(|p: G1Point| p.model())
}

/// Relies on `CanonicalDeserialize::deserialize_compressed` for
/// `ark_bn254::G1Affine`, which validates curve and subgroup membership and
/// reads one coordinate with the sign and infinity flags.
#[verifier::external_body]
pub(crate) fn decode_g1(b: &[u8]) -> (r: Result<G1Point, SerializationError>)
    requires
        b@.len() == G1_SIZE,
    ensures
        r is Ok == g1_accepts(b@),
        r matches Ok(p) ==> p.model() == point_model_of(b@),
{
    let model = Ghost(point_model_of(b@));
    G1Affine::deserialize_compressed(b).map(|inner| G1Point { raw: G1Raw { inner }, model })
}

/// Relies on `CanonicalDeserialize::deserialize_compressed` for
/// `ark_bn254::G2Affine`, as for G1.
#[verifier::external_body]
pub(crate) fn decode_g2(b: &[u8]) -> (r: Result<G2Point, SerializationError>)
    requires
        b@.len() == G2_SIZE,
    ensures
        r is Ok == g2_accepts(b@),
        r matches Ok(p) ==> p.model() == point_model_of(b@),
{
    let model = Ghost(point_model_of(b@));
    G2Affine::deserialize_compressed(b).map(|inner| G2Point { raw: G2Raw { inner }, model })
}

/// Relies on `CanonicalSerialize::serialize_compressed` for
/// `ark_bn254::G1Affine`: the canonical encoding (the point at infinity with
/// a zero coordinate), which decodes again;
/// writing into a `Vec` cannot fail.
#[verifier::external_body]
pub(crate) fn encode_g1(p: &G1Point) -> (r: Vec<u8>)
    ensures
        r@ == p.model(),
        r@.len() == G1_SIZE,
        g1_accepts(r@),
        point_model_of(r@) == r@,
{
    let mut out = Vec::new();
    let _ = p.raw.inner.serialize_compressed(&mut out);
    out
}

/// Relies on `CanonicalDeserialize::deserialize_compressed` for
/// `ark_bn254::Fq12`: twelve base-field elements, each below the modulus.
#[verifier::external_body]
pub(crate) fn decode_gt(b: &[u8]) -> (r: Result<GtElement, SerializationError>)
    requires
        b@.len() == GT_SIZE,
    ensures
        r is Ok == gt_accepts(b@),
        r matches Ok(x) ==> x.model() == b@,
{
    let model = Ghost(b@);
    Fq12::deserialize_compressed(b).map(|inner| GtElement { raw: GtRaw { inner }, model })
}

/// Relies on `CanonicalSerialize::serialize_compressed` for `ark_bn254::Fq12`;
/// the encoding decodes again, and writing into a `Vec` cannot fail.
#[verifier::external_body]
pub(crate) fn encode_gt(x: &GtElement) -> (r: Vec<u8>)
    ensures
        r@ == x.model(),
        r@.len() == GT_SIZE,
        gt_accepts(r@),
{
    let mut out = Vec::new();
    let _ = x.raw.inner.serialize_compressed(&mut out);
    out
}

/// Relies on `CanonicalDeserialize::deserialize_compressed` for
/// `ark_ec::bn::G2Prepared`: a `u64` count, the coefficients, and a flag.
#[verifier::external_body]
pub(crate) fn decode_g2_prepared(b: &[u8]) -> (r: Result<PreparedG2, SerializationError>)
    requires
        prepared_shape_ok(b@),
    ensures
        r is Ok == g2_prepared_accepts(b@),
        r matches Ok(x) ==> x.model() == b@,
{
    let model = Ghost(b@);
    let raw = ark_ec::bn::G2Prepared::deserialize_compressed(b);
    raw.map(|inner| PreparedG2 { raw: PreparedG2Raw { inner }, model })
}

/// Relies on `CanonicalSerialize::serialize_compressed` for
/// `ark_ec::bn::G2Prepared`; the encoding decodes again, and writing into a
/// `Vec` cannot fail.
#[verifier::external_body]
pub(crate) fn encode_g2_prepared(x: &PreparedG2) -> (r: Vec<u8>)
    ensures
        r@ == x.model(),
        g2_prepared_accepts(r@),
{
    let mut out = Vec::new();
    let _ = x.raw.inner.serialize_compressed(&mut out);
    out
}

/// Relies on `CanonicalDeserialize::deserialize_compressed` for
/// `ark_groth16::VerifyingKey<Bn254>`, of which only the number of
/// `gamma_abc_g1` points is kept. The encoding holds `alpha_g1` (32 bytes),
/// `beta_g2`, `gamma_g2`, `delta_g2` (64 bytes each), that number as a
/// little-endian `u64`, then the points, each decoded with validation.
#[verifier::external_body]
pub(crate) fn vk_base_count(b: &[u8]) -> (r: Result<usize, SerializationError>)
    ensures
        r is Ok == vk_accepts(b@),
        r matches Ok(n) ==> {
            &&& b@.len() >= 232 + 32 * n
            &&& n == le_value(b@.subrange(224, 232))
            &&& g1_accepts(b@.subrange(0, 32))
            &&& g2_accepts(b@.subrange(32, 96))
            &&& g2_accepts(b@.subrange(96, 160))
            &&& g2_accepts(b@.subrange(160, 224))
            &&& forall|i: int|
                0 <= i < n ==> #[trigger] g1_accepts(chunk(b@.subrange(232, 232 + 32 * n), i, 32))
        },
{
    ark_groth16::VerifyingKey::<Bn254>::deserialize_compressed(b).map(|vk| vk.gamma_abc_g1.len())
}

/// Relies on `Pairing::pairing` for `Bn254`: the reduced pairing `e(a, b)`.
#[verifier::external_body]
pub(crate) fn pairing(a: &G1Point, b: &G2Point) -> (r: GtElement)
    ensures
        r.model() == pairing_model(a.model(), b.model()),
{
    let model = Ghost(pairing_model(a.model(), b.model()));
    GtElement { raw: GtRaw { inner: Bn254::pairing(a.raw.inner, b.raw.inner).0 }, model }
}

/// Relies on `Neg` for `ark_bn254::G2Affine`: the same `x` with `y` negated,
/// so the sign flag of the encoding turns over.
#[verifier::external_body]
pub(crate) fn negate_g2(p: &G2Point) -> (r: G2Point)
    ensures
        r.model() == g2_negated(p.model()),
{
    G2Point { raw: G2Raw { inner: -p.raw.inner }, model: Ghost(g2_negated(p.model())) }
}

/// Relies on `From<G2Affine>` for `ark_ec::bn::G2Prepared`: no coefficients
/// and the flag set for the point at infinity, else 91 coefficients.
#[verifier::external_body]
pub(crate) fn prepare_g2(p: G2Point) -> (r: PreparedG2)
    ensures
        r.model() == prepare_model(p.model()),
        prepared_shape_ok(r.model()),
{
    let model = Ghost(prepare_model(p.model()));
    PreparedG2 { raw: PreparedG2Raw { inner: p.raw.inner.into() }, model }
}

/// Relies on `SNARK::verify_with_processed_vk` for `Groth16<Bn254>`: the
/// input commitment and the single multi-pairing check against
/// `alpha_g1_beta_g2`. With as many inputs as bases less one, its only error
/// is an identity after the final exponentiation; its Miller loop takes a
/// full set of line coefficients from each prepared point not at infinity.
/// Scalars are canonical, so reading them modulo the order keeps them.
#[verifier::external_body]
pub(crate) fn groth16_check(pvk: PreparedVerifyingKey, inputs: &[Scalar], proof: Proof) -> (r: Result<bool, SynthesisError>)
    requires
        prepared_shape_ok(pvk.gamma_g2_neg_pc.model()),
        prepared_shape_ok(pvk.delta_g2_neg_pc.model()),
        inputs@.len() + 1 == pvk.vk_gamma_abc_g1@.len(),
    ensures
        (r is Ok) == (groth16_result(
            g1_models(pvk.vk_gamma_abc_g1@),
            pvk.alpha_g1_beta_g2.model(),
            pvk.gamma_g2_neg_pc.model(),
            pvk.delta_g2_neg_pc.model(),
            scalar_views(inputs@),
            proof.a.model() + proof.b.model() + proof.c.model(),
        ) is Some),
        r matches Ok(b) ==> groth16_result(
            g1_models(pvk.vk_gamma_abc_g1@),
            pvk.alpha_g1_beta_g2.model(),
            pvk.gamma_g2_neg_pc.model(),
            pvk.delta_g2_neg_pc.model(),
            scalar_views(inputs@),
            proof.a.model() + proof.b.model() + proof.c.model(),
        ) == Some(b),
{
    let gamma_abc_g1 = pvk.vk_gamma_abc_g1.into_iter().map(|p| p.raw.inner).collect();
    let vk = ark_groth16::VerifyingKey { gamma_abc_g1, ..Default::default() };
    let ark_pvk = ark_groth16::PreparedVerifyingKey::<Bn254> {
        vk,
        alpha_g1_beta_g2: pvk.alpha_g1_beta_g2.raw.inner,
        gamma_g2_neg_pc: pvk.gamma_g2_neg_pc.raw.inner,
        delta_g2_neg_pc: pvk.delta_g2_neg_pc.raw.inner,
    };
    let x: Vec<Fr> = inputs.iter().map(|s| Fr::from_le_bytes_mod_order(s.as_bytes())).collect();
    let p = ark_groth16::Proof { a: proof.a.raw.inner, b: proof.b.raw.inner, c: proof.c.raw.inner };
    Groth16::<Bn254>::verify_with_processed_vk(&ark_pvk, &x, &p)
}

/// Tells whether `b` is the canonical encoding of the point it decodes to:
/// the point at infinity must have all coordinate bytes zero.
pub fn is_canonical_point(b: &[u8]) -> (r: bool)
    requires
        b@.len() > 0,
    ensures
        r == (point_model_of(b@) == b@),
{
    let n: usize = b.len();
    let last: u8 = b[n - 1];
    if last < 0x40 || last >= 0x80 {
        return true;
    }
    proof {
        assert(point_model_of(b@) == point_infinity(n as nat));
    }
    if last != 0x40 {
        proof {
            assert(point_infinity(n as nat)[n - 1] != b@[n - 1]);
        }
        return false;
    }
    let mut i: usize = 0;
    while i < n - 1
        invariant
            n == b@.len(),
            i <= n - 1,
            point_model_of(b@) == point_infinity(n as nat),
            forall|k: int| 0 <= k < i ==> b@[k] == 0,
        decreases n - 1 - i,
    {
        if b[i] != 0 {
            proof {
                assert(point_infinity(n as nat)[i as int] != b@[i as int]);
            }
            return false;
        }
        i = i + 1;
    }
    proof {
        assert(point_infinity(n as nat) =~= b@);
    }
    true
}

} // verus!
