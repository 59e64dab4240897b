//! Prepared verifying keys, proofs and the pairing check.
use crate::curve::{
    decode_g1, decode_g2, decode_g2_prepared, decode_gt, encode_g1, encode_g2_prepared, encode_gt,
    g1_accepts, g1_models, g2_accepts, g2_negated, g2_prepared_accepts, groth16_check,
    groth16_result, gt_accepts, is_canonical_point, negate_g2, pairing, pairing_model,
    point_model_of, prepare_g2, prepare_model, G1Point, G2Point, GtElement, PreparedG2, G1_SIZE,
    G2_SIZE, GT_SIZE,
};
use crate::error::{Groth16Error, VerificationFailure};
use crate::scalar::{chunk, scalar_views, Scalar};
use ark_relations::r1cs::SynthesisError;
use vstd::arithmetic::div_mod::lemma_fundamental_div_mod;
use vstd::prelude::*;
use vstd::slice::slice_subrange;

verus! {

/// Number of bytes in the compressed encoding of a proof: `a` in G1, `b` in
/// G2 and `c` in G1, in that order.
pub const PROOF_SIZE: usize = 128;

/// `b` is the canonical encoding of the point it decodes to.
pub open spec fn canonical_point(b: Seq<u8>) -> bool {
    point_model_of(b) == b
}

/// The 32-byte chunks of `b`, in order.
pub open spec fn g1_chunks(b: Seq<u8>) -> Seq<Seq<u8>> {
    Seq::new(b.len() / G1_SIZE as nat, |i: int| chunk(b, i, G1_SIZE as int))
}

/// `b` is a whole number of canonical compressed G1 points, each accepted.
pub open spec fn g1_sequence_decodes(b: Seq<u8>) -> bool {
    &&& b.len() % G1_SIZE as nat == 0
    &&& forall|i: int|
        0 <= i < b.len() / G1_SIZE as nat ==> #[trigger] g1_accepts(chunk(b, i, G1_SIZE as int))
            && canonical_point(chunk(b, i, G1_SIZE as int))
}

/// `b` is exactly three canonical, accepted point encodings: G1, G2 and G1.
pub open spec fn proof_decodes(b: Seq<u8>) -> bool {
    &&& b.len() == PROOF_SIZE
    &&& g1_accepts(b.subrange(0, 32)) && canonical_point(b.subrange(0, 32))
    &&& g2_accepts(b.subrange(32, 96)) && canonical_point(b.subrange(32, 96))
    &&& g1_accepts(b.subrange(96, 128)) && canonical_point(b.subrange(96, 128))
}

/// The error that decoding the four buffers of a prepared key gives, if any.
pub open spec fn prepared_key_error(
    gamma_abc: Seq<u8>,
    alpha_beta: Seq<u8>,
    gamma_pc: Seq<u8>,
    delta_pc: Seq<u8>,
) -> Option<Groth16Error> {
    if !(g1_sequence_decodes(gamma_abc) && alpha_beta.len() == GT_SIZE && gt_accepts(alpha_beta)) {
        Some(Groth16Error::InvalidEncoding)
    } else if !prepared_shape_ok(gamma_pc) || !prepared_shape_ok(delta_pc) {
        Some(Groth16Error::VerificationError(VerificationFailure::IncompletePreparedPoint))
    } else if !g2_prepared_accepts(gamma_pc) || !g2_prepared_accepts(delta_pc) {
        Some(Groth16Error::InvalidEncoding)
    } else {
        None
    }
}

/// Number of line coefficients in a full Miller-loop preparation of a G2
/// point that is not at infinity.
pub const PREPARED_G2_COEFFS: u8 = 91;

/// Number of bytes in the compressed encoding of such a preparation: the
/// coefficient count as a little-endian `u64`, three G2 base-field elements
/// of 64 bytes for each coefficient, and the infinity flag.
pub const PREPARED_G2_SIZE: usize = 17481;

/// `b` has the shape of a complete preparation: either the point at infinity
/// with no coefficients, or a full set of coefficients with the flag clear.
pub open spec fn prepared_shape_ok(b: Seq<u8>) -> bool {
    ||| b =~= seq![0u8, 0u8, 0u8, 0u8, 0u8, 0u8, 0u8, 0u8, 1u8]
    ||| {
        &&& b.len() == PREPARED_G2_SIZE
        &&& b[0] == PREPARED_G2_COEFFS
        &&& b[1] == 0 && b[2] == 0 && b[3] == 0 && b[4] == 0
        &&& b[5] == 0 && b[6] == 0 && b[7] == 0
        &&& b[PREPARED_G2_SIZE - 1] == 0
    }
}

/// Tells whether `b` has the shape of a complete preparation.
pub fn check_prepared_shape(b: &[u8]) -> (r: bool)
    ensures
        r == prepared_shape_ok(b@),
{
    if b.len() == 9 {
        b[0] == 0 && b[1] == 0 && b[2] == 0 && b[3] == 0 && b[4] == 0 && b[5] == 0 && b[6] == 0
            && b[7] == 0 && b[8] == 1
    } else if b.len() == PREPARED_G2_SIZE {
        b[0] == PREPARED_G2_COEFFS && b[1] == 0 && b[2] == 0 && b[3] == 0 && b[4] == 0 && b[5] == 0
            && b[6] == 0 && b[7] == 0 && b[PREPARED_G2_SIZE - 1] == 0
    } else {
        false
    }
}

/// `r` is what verification answers when the pairing check comes out as
/// `res`: its verdict, or an internal error when it cannot complete.
pub open spec fn follows_check(res: Option<bool>, r: Result<bool, Groth16Error>) -> bool {
    match res {
        Some(b) => r == Ok::<bool, Groth16Error>(b),
        None => r == Err::<bool, Groth16Error>(
            Groth16Error::VerificationError(VerificationFailure::PairingIncomplete),
        ),
    }
}

/// Two byte strings of `n` chunks of 32 bytes with equal chunks are equal.
pub proof fn lemma_equal_chunks(x: Seq<u8>, y: Seq<u8>, n: nat)
    requires
        x.len() == 32 * n,
        y.len() == 32 * n,
        forall|i: int| 0 <= i < n ==> #[trigger] chunk(x, i, 32) == chunk(y, i, 32),
    ensures
        x == y,
{
    assert forall|j: int| 0 <= j < x.len() implies x[j] == y[j] by {
        lemma_fundamental_div_mod(j, 32);
        let i = j / 32;
        assert(0 <= i < n) by (nonlinear_arith)
            requires
                0 <= j < 32 * n,
                i == j / 32,
        ;
        assert(32 * i + 32 <= 32 * n) by (nonlinear_arith)
            requires
                i < n,
        ;
        assert(chunk(x, i, 32)[j - 32 * i] == x[j]);
        assert(chunk(y, i, 32)[j - 32 * i] == y[j]);
    }
    assert(x =~= y);
}

/// A Groth16 proof: two G1 points and one G2 point.
pub struct Proof {
    pub(crate) a: G1Point,
    pub(crate) b: G2Point,
    pub(crate) c: G1Point,
}

impl Proof {
    /// The canonical compressed encoding of this proof.
    pub closed spec fn model(&self) -> Seq<u8> {
        self.a.model() + self.b.model() + self.c.model()
    }

    /// Decodes the three compressed points of a proof; the input must hold
    /// exactly those bytes, each point in its canonical encoding.
    pub fn from_bytes(b: &[u8]) -> (r: Result<Proof, Groth16Error>)
        ensures
            r is Ok <==> proof_decodes(b@),
            r matches Ok(p) ==> p.model() == b@,
            r matches Err(e) ==> e is InvalidEncoding,
    {
        if b.len() != PROOF_SIZE {
            return Err(Groth16Error::InvalidEncoding);
        }
        let sa = slice_subrange(b, 0, 32);
        let sb = slice_subrange(b, 32, 96);
        let sc = slice_subrange(b, 96, 128);
        if !is_canonical_point(sa) || !is_canonical_point(sb) || !is_canonical_point(sc) {
            return Err(Groth16Error::InvalidEncoding);
        }
        match (decode_g1(sa), decode_g2(sb), decode_g1(sc)) {
            (Ok(a), Ok(bb), Ok(c)) => {
                let p = Proof { a, b: bb, c };
                proof {
                    assert(p.model() =~= b@);
                }
                Ok(p)
            },
            _ => Err(Groth16Error::InvalidEncoding),
        }
    }
}

/// Splits `b` into compressed G1 points and decodes each.
pub fn decode_g1_sequence(b: &[u8]) -> (r: Result<Vec<G1Point>, Groth16Error>)
    ensures
        r is Ok <==> g1_sequence_decodes(b@),
        r matches Ok(v) ==> g1_models(v@) == g1_chunks(b@),
        r matches Err(e) ==> e is InvalidEncoding,
{
    let len: usize = b.len();
    if len % G1_SIZE != 0 {
        return Err(Groth16Error::InvalidEncoding);
    }
    let n: usize = len / G1_SIZE;
    let mut out: Vec<G1Point> = Vec::new();
    let mut i: usize = 0;
    while i < n
        invariant
            len == b@.len(),
            n == b@.len() / G1_SIZE as nat,
            b@.len() % G1_SIZE as nat == 0,
            i <= n,
            out@.len() == i,
            forall|k: int| 0 <= k < i ==> #[trigger] out@[k].model() == chunk(b@, k, G1_SIZE as int),
            forall|k: int|
                0 <= k < i ==> #[trigger] g1_accepts(chunk(b@, k, G1_SIZE as int)) && canonical_point(
                    chunk(b@, k, G1_SIZE as int),
                ),
        decreases n - i,
    {
        proof {
            lemma_fundamental_div_mod(b@.len() as int, G1_SIZE as int);
            assert((i as int) * 32 + 32 <= b@.len()) by (nonlinear_arith)
                requires
                    i < n,
                    b@.len() == 32 * n,
            ;
        }
        let start: usize = i * G1_SIZE;
        let piece = slice_subrange(b, start, start + G1_SIZE);
        if !is_canonical_point(piece) {
            proof {
                assert(piece@ == chunk(b@, i as int, G1_SIZE as int));
                assert(!canonical_point(chunk(b@, i as int, G1_SIZE as int)));
                assert(!g1_sequence_decodes(b@)) by {
                    assert(0 <= i < b@.len() / G1_SIZE as nat);
                    if g1_sequence_decodes(b@) {
                        assert(g1_accepts(chunk(b@, i as int, G1_SIZE as int)));
                    }
                }
            }
            return Err(Groth16Error::InvalidEncoding);
        }
        match decode_g1(piece) {
            Ok(p) => {
                out.push(p);
                i = i + 1;
            },
            Err(_) => {
                proof {
                    assert(!g1_accepts(chunk(b@, i as int, G1_SIZE as int)));
                }
                return Err(Groth16Error::InvalidEncoding);
            },
        }
    }
    proof {
        assert(g1_models(out@) =~= g1_chunks(b@));
    }
    Ok(out)
}

/// Concatenates the compressed encodings of `points`.
pub fn encode_g1_sequence(points: &Vec<G1Point>) -> (r: Vec<u8>)
    ensures
        r@.len() == G1_SIZE * points@.len(),
        forall|i: int| 0 <= i < points@.len() ==> #[trigger] chunk(r@, i, 32) == points@[i].model(),
        g1_sequence_decodes(r@),
{
    let mut out: Vec<u8> = Vec::new();
    let mut i: usize = 0;
    while i < points.len()
        invariant
            i <= points@.len(),
            out@.len() == G1_SIZE * i,
            forall|k: int| 0 <= k < i ==> #[trigger] chunk(out@, k, 32) == points@[k].model(),
            forall|k: int|
                0 <= k < i ==> g1_accepts(#[trigger] chunk(out@, k, 32)) && canonical_point(
                    chunk(out@, k, 32),
                ),
        decreases points@.len() - i,
    {
        let mut enc = encode_g1(&points[i]);
        let ghost prev = out@;
        let ghost e = enc@;
        out.append(&mut enc);
        proof {
            assert forall|k: int| 0 <= k < i + 1 implies #[trigger] chunk(out@, k, 32) == (if k
                < i {
                chunk(prev, k, 32)
            } else {
                e
            }) by {
                assert(32 * k + 32 <= 32 * i + 32) by (nonlinear_arith)
                    requires
                        k < i + 1,
                ;
                if k < i {
                    assert(32 * k + 32 <= 32 * i) by (nonlinear_arith)
                        requires
                            k < i,
                    ;
                    assert(chunk(out@, k, 32) =~= chunk(prev, k, 32));
                } else {
                    assert(chunk(out@, k, 32) =~= e);
                }
            }
        }
        i = i + 1;
    }
    proof {
        vstd::arithmetic::div_mod::lemma_mod_multiples_basic(points@.len() as int, 32);
        vstd::arithmetic::div_mod::lemma_div_multiples_vanish(points@.len() as int, 32);
    }
    out
}

/// A verifying key with its points held as separate values.
pub struct VerifyingKey {
    pub alpha_g1: G1Point,
    pub beta_g2: G2Point,
    pub gamma_g2: G2Point,
    pub delta_g2: G2Point,
    pub gamma_abc_g1: Vec<G1Point>,
}

/// A verifying key with the proof-independent pairing work done once.
pub struct PreparedVerifyingKey {
    /// The bases of the public-input commitment; the first is the constant term.
    pub(crate) vk_gamma_abc_g1: Vec<G1Point>,
    /// `e(alpha_g1, beta_g2)`.
    pub(crate) alpha_g1_beta_g2: GtElement,
    /// `-gamma_g2`, prepared for the Miller loop.
    pub(crate) gamma_g2_neg_pc: PreparedG2,
    /// `-delta_g2`, prepared for the Miller loop.
    pub(crate) delta_g2_neg_pc: PreparedG2,
}

impl PreparedVerifyingKey {
    /// Both prepared points are complete, so the Miller loop finds every
    /// line coefficient it takes.
    #[verifier::type_invariant]
    pub(crate) closed spec fn shape_ok(&self) -> bool {
        prepared_shape_ok(self.gamma_g2_neg_pc.model()) && prepared_shape_ok(
            self.delta_g2_neg_pc.model(),
        )
    }

    /// The encodings of the commitment bases.
    pub closed spec fn bases(&self) -> Seq<Seq<u8>> {
        g1_models(self.vk_gamma_abc_g1@)
    }

    /// The encoding of `e(alpha_g1, beta_g2)`.
    pub closed spec fn alpha_beta(&self) -> Seq<u8> {
        self.alpha_g1_beta_g2.model()
    }

    /// The encoding of the prepared `-gamma_g2`.
    pub closed spec fn gamma_pc(&self) -> Seq<u8> {
        self.gamma_g2_neg_pc.model()
    }

    /// The encoding of the prepared `-delta_g2`.
    pub closed spec fn delta_pc(&self) -> Seq<u8> {
        self.delta_g2_neg_pc.model()
    }

    /// Number of bases of the public-input commitment.
    pub closed spec fn num_bases(&self) -> nat {
        self.vk_gamma_abc_g1@.len()
    }

    /// Number of bases of the public-input commitment: one more than the
    /// number of public inputs.
    pub fn bases_len(&self) -> (r: usize)
        ensures
            r == self.num_bases(),
            r == self.bases().len(),
    {
        self.vk_gamma_abc_g1.len()
    }

    /// Prepares `vk`: one pairing for `alpha_g1_beta_g2`, and the negations of
    /// `gamma_g2` and `delta_g2` turned into Miller-loop form.
    pub fn from_vk(vk: VerifyingKey) -> (r: PreparedVerifyingKey)
        ensures
            r.num_bases() == vk.gamma_abc_g1@.len(),
            r.bases() == g1_models(vk.gamma_abc_g1@),
            r.alpha_beta() == pairing_model(vk.alpha_g1.model(), vk.beta_g2.model()),
            r.gamma_pc() == prepare_model(g2_negated(vk.gamma_g2.model())),
            r.delta_pc() == prepare_model(g2_negated(vk.delta_g2.model())),
    {
        let alpha_g1_beta_g2 = pairing(&vk.alpha_g1, &vk.beta_g2);
        let gamma_g2_neg_pc = prepare_g2(negate_g2(&vk.gamma_g2));
        let delta_g2_neg_pc = prepare_g2(negate_g2(&vk.delta_g2));
        PreparedVerifyingKey {
            vk_gamma_abc_g1: vk.gamma_abc_g1,
            alpha_g1_beta_g2,
            gamma_g2_neg_pc,
            delta_g2_neg_pc,
        }
    }

    /// The four components as byte buffers, in the order
    /// `[vk_gamma_abc_g1, alpha_g1_beta_g2, gamma_g2_neg_pc, delta_g2_neg_pc]`.
    /// They decode again to this key.
    pub fn as_serialized(&self) -> (r: Vec<Vec<u8>>)
        ensures
            r@.len() == 4,
            r@[0]@.len() == G1_SIZE * self.num_bases(),
            g1_chunks(r@[0]@) == self.bases(),
            r@[1]@ == self.alpha_beta(),
            r@[2]@ == self.gamma_pc(),
            r@[3]@ == self.delta_pc(),
            prepared_key_error(r@[0]@, r@[1]@, r@[2]@, r@[3]@) is None,
    {
        proof {
            use_type_invariant(self);
        }
        let gamma_abc = encode_g1_sequence(&self.vk_gamma_abc_g1);
        let alpha_beta = encode_gt(&self.alpha_g1_beta_g2);
        let gamma_pc = encode_g2_prepared(&self.gamma_g2_neg_pc);
        let delta_pc = encode_g2_prepared(&self.delta_g2_neg_pc);
        proof {
            vstd::arithmetic::div_mod::lemma_div_multiples_vanish(self.num_bases() as int, 32);
            assert(g1_chunks(gamma_abc@) =~= self.bases());
        }
        let mut res: Vec<Vec<u8>> = Vec::new();
        res.push(gamma_abc);
        res.push(alpha_beta);
        res.push(gamma_pc);
        res.push(delta_pc);
        res
    }

    /// Decodes the four buffers that `as_serialized` produces.
    pub fn deserialize(
        vk_gamma_abc_g1_bytes: &[u8],
        alpha_g1_beta_g2_bytes: &[u8],
        gamma_g2_neg_pc_bytes: &[u8],
        delta_g2_neg_pc_bytes: &[u8],
    ) -> (r: Result<PreparedVerifyingKey, Groth16Error>)
        ensures
            match prepared_key_error(
                vk_gamma_abc_g1_bytes@,
                alpha_g1_beta_g2_bytes@,
                gamma_g2_neg_pc_bytes@,
                delta_g2_neg_pc_bytes@,
            ) {
                Some(e) => r == Err::<PreparedVerifyingKey, Groth16Error>(e),
                None => r matches Ok(k) && k.bases() == g1_chunks(vk_gamma_abc_g1_bytes@)
                    && k.alpha_beta() == alpha_g1_beta_g2_bytes@ && k.gamma_pc()
                    == gamma_g2_neg_pc_bytes@ && k.delta_pc() == delta_g2_neg_pc_bytes@,
            },
    {
        let vk_gamma_abc_g1 = decode_g1_sequence(vk_gamma_abc_g1_bytes)?;
        if alpha_g1_beta_g2_bytes.len() != GT_SIZE {
            return Err(Groth16Error::InvalidEncoding);
        }
        let alpha_g1_beta_g2 = match decode_gt(alpha_g1_beta_g2_bytes) {
            Ok(v) => v,
            Err(_) => {
                return Err(Groth16Error::InvalidEncoding);
            },
        };
        if !check_prepared_shape(gamma_g2_neg_pc_bytes) || !check_prepared_shape(delta_g2_neg_pc_bytes) {
            return Err(
                Groth16Error::VerificationError(VerificationFailure::IncompletePreparedPoint),
            );
        }
        let gamma_g2_neg_pc = match decode_g2_prepared(gamma_g2_neg_pc_bytes) {
            Ok(v) => v,
            Err(_) => {
                return Err(Groth16Error::InvalidEncoding);
            },
        };
        let delta_g2_neg_pc = match decode_g2_prepared(delta_g2_neg_pc_bytes) {
            Ok(v) => v,
            Err(_) => {
                return Err(Groth16Error::InvalidEncoding);
            },
        };
        Ok(PreparedVerifyingKey { vk_gamma_abc_g1, alpha_g1_beta_g2, gamma_g2_neg_pc, delta_g2_neg_pc })
    }

    /// Checks `proof` against this key and `inputs`.
    ///
    /// The number of inputs must be one less than the number of commitment
    /// bases; a proof that fails the pairing equation gives `Ok(false)`.
    pub fn verify(self, inputs: &[Scalar], proof: Proof) -> (r: Result<bool, Groth16Error>)
        ensures
            inputs@.len() + 1 != self.bases().len() ==> r == Err::<bool, Groth16Error>(
                Groth16Error::PublicInputCountMismatch,
            ),
            inputs@.len() + 1 == self.bases().len() ==> follows_check(
                groth16_result(
                    self.bases(),
                    self.alpha_beta(),
                    self.gamma_pc(),
                    self.delta_pc(),
                    scalar_views(inputs@),
                    proof.model(),
                ),
                r,
            ),
    {
        proof {
            use_type_invariant(&self);
        }
        let bases: usize = self.vk_gamma_abc_g1.len();
        if bases == 0 || inputs.len() != bases - 1 {
            return Err(Groth16Error::PublicInputCountMismatch);
        }
        verdict(groth16_check(self, inputs, proof))
    }
}

/// The answer of a verification from the outcome of the pairing check: its
/// verdict as it stands, or an internal error when the check could not run.
pub fn verdict(check: Result<bool, SynthesisError>) -> (r: Result<bool, Groth16Error>)
    ensures
        check matches Ok(b) ==> r == Ok::<bool, Groth16Error>(b),
        check is Err ==> r == Err::<bool, Groth16Error>(
            Groth16Error::VerificationError(VerificationFailure::PairingIncomplete),
        ),
{
    match check {
        Ok(b) => Ok(b),
        Err(_) => Err(Groth16Error::VerificationError(VerificationFailure::PairingIncomplete)),
    }
}

} // verus!
