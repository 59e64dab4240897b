use crate::error::Groth16Error;
use vstd::arithmetic::div_mod::lemma_fundamental_div_mod;
use vstd::prelude::*;
use vstd::slice::{slice_subrange, slice_to_vec};

verus! {

/// Number of bytes in the encoding of a scalar.
pub const SCALAR_SIZE: usize = 32;

/// The order of the BN254 scalar field.
pub open spec fn fr_modulus() -> nat {
    21888242871839275222246405745257275088548364400416034343698204186575808495617nat
}

/// The unsigned integer that `b` encodes, least significant byte first.
pub open spec fn le_value(b: Seq<u8>) -> nat
    decreases b.len(),
{
    if b.len() == 0 {
        0
    } else {
        b[0] as nat + 256 * le_value(b.drop_first())
    }
}

/// `b` is the canonical encoding of a scalar: 32 bytes whose value is below
/// the field order.
pub open spec fn is_scalar_encoding(b: Seq<u8>) -> bool {
    b.len() == SCALAR_SIZE && le_value(b) < fr_modulus()
}

/// The `i`-th chunk of `size` bytes of `b`.
pub open spec fn chunk(b: Seq<u8>, i: int, size: int) -> Seq<u8> {
    b.subrange(i * size, i * size + size)
}

/// The 32-byte chunks of `b`, in order.
pub open spec fn scalar_chunks(b: Seq<u8>) -> Seq<Seq<u8>> {
    Seq::new(b.len() / SCALAR_SIZE as nat, |i: int| chunk(b, i, SCALAR_SIZE as int))
}

/// The encodings of a sequence of scalars.
pub open spec fn scalar_views(s: Seq<Scalar>) -> Seq<Seq<u8>> {
    s.map_values(|x: Scalar| x@)
}

/// Relies on the canonical deserializer of `ark_bn254::Fr`: it reads 32
/// bytes as a little-endian integer and accepts them exactly when that
/// integer is below the field order.
#[verifier::external_body]
fn fr_accepts(b: &[u8]) -> (r: bool)
    requires
        b@.len() == SCALAR_SIZE,
    ensures
        r == (le_value(b@) < fr_modulus()),
{
    <ark_bn254::Fr as ark_serialize::CanonicalDeserialize>::deserialize_compressed(b).is_ok()
}

/// An element of the BN254 scalar field, kept as its canonical encoding.
pub struct Scalar {
    bytes: Vec<u8>,
}

impl View for Scalar {
    type V = Seq<u8>;

    closed spec fn view(&self) -> Seq<u8> {
        self.bytes@
    }
}

impl Scalar {
    #[verifier::type_invariant]
    closed spec fn canonical(&self) -> bool {
        is_scalar_encoding(self.bytes@)
    }

    /// Decodes a scalar from its canonical 32-byte little-endian encoding.
    pub fn from_bytes(b: &[u8]) -> (r: Result<Scalar, Groth16Error>)
        ensures
            r is Ok <==> is_scalar_encoding(b@),
            r matches Ok(s) ==> s@ == b@,
            r matches Err(e) ==> e is InvalidEncoding,
    {
        if b.len() != SCALAR_SIZE {
            return Err(Groth16Error::InvalidEncoding);
        }
        if !fr_accepts(b) {
            return Err(Groth16Error::InvalidEncoding);
        }
        Ok(Scalar { bytes: slice_to_vec(b) })
    }

    /// The canonical encoding of this scalar.
    pub fn to_bytes(&self) -> (r: Vec<u8>)
        ensures
            r@ == self@,
            is_scalar_encoding(r@),
    {
        proof {
            use_type_invariant(self);
        }
        self.bytes.clone()
    }

    /// Borrows the canonical encoding of this scalar.
    pub fn as_bytes(&self) -> (r: &[u8])
        ensures
            r@ == self@,
            is_scalar_encoding(r@),
    {
        proof {
            use_type_invariant(self);
        }
        self.bytes.as_slice()
    }
}

/// Splits `b` into 32-byte chunks and decodes each as a scalar.
pub fn decode_scalar_sequence(b: &[u8]) -> (r: Result<Vec<Scalar>, Groth16Error>)
    ensures
        (b@.len() % SCALAR_SIZE as nat != 0) ==> (r matches Err(Groth16Error::InputLengthWrong(n)) && n == SCALAR_SIZE),
        (b@.len() % SCALAR_SIZE as nat == 0) ==> (r is Ok <==> forall|i: int|
            0 <= i < b@.len() / SCALAR_SIZE as nat ==> #[trigger] is_scalar_encoding(
                chunk(b@, i, SCALAR_SIZE as int),
            )),
        (b@.len() % SCALAR_SIZE as nat == 0) && r is Err ==> (r matches Err(e) && e is InvalidEncoding),
        r matches Ok(v) ==> scalar_views(v@) == scalar_chunks(b@),
{
    if b.len() % SCALAR_SIZE != 0 {
        return Err(Groth16Error::InputLengthWrong(SCALAR_SIZE));
    }
    let len: usize = b.len();
    let n: usize = len / SCALAR_SIZE;
    let mut out: Vec<Scalar> = Vec::new();
    let mut i: usize = 0;
    while i < n
        invariant
            len == b@.len(),
            n == b@.len() / SCALAR_SIZE as nat,
            b@.len() % SCALAR_SIZE as nat == 0,
            i <= n,
            out@.len() == i,
            forall|k: int| 0 <= k < i ==> #[trigger] out@[k]@ == chunk(b@, k, SCALAR_SIZE as int),
            forall|k: int|
                0 <= k < i ==> #[trigger] is_scalar_encoding(chunk(b@, k, SCALAR_SIZE as int)),
        decreases n - i,
    {
        proof {
            lemma_fundamental_div_mod(b@.len() as int, SCALAR_SIZE as int);
            assert((i as int) * 32 + 32 <= b@.len()) by (nonlinear_arith)
                requires
                    i < n,
                    b@.len() == 32 * n,
            ;
        }
        let start: usize = i * SCALAR_SIZE;
        let piece = slice_subrange(b, start, start + SCALAR_SIZE);
        match Scalar::from_bytes(piece) {
            Ok(s) => {
                out.push(s);
                i = i + 1;
            },
            Err(e) => {
                proof {
                    assert(!is_scalar_encoding(chunk(b@, i as int, SCALAR_SIZE as int)));
                }
                return Err(e);
            },
        }
    }
    proof {
        assert(scalar_views(out@) =~= scalar_chunks(b@));
    }
    Ok(out)
}

} // verus!
