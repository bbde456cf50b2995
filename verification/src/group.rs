//! The prime-order group that the hash is built over: the Ristretto group of
//! curve25519-dalek, with its scalars.
//!
//! Nothing in this file is proved. It says what the rest of the crate takes
//! for granted about the curve library: that its points form a cyclic group
//! of order `group_order()` generated by the Ristretto base point, that its
//! scalars are the integers modulo that order, and that encoding a point is
//! a function of the group element alone. The group is modelled through
//! exponents: a point `P` stands for the one `k` below the order with
//! `P = k·B`, `B` being the base point. In that model adding points adds
//! exponents and multiplying a point by a scalar multiplies its exponent,
//! both modulo the order.
use vstd::prelude::*;
use curve25519_dalek::ristretto::CompressedRistretto;
use curve25519_dalek::ristretto::RistrettoPoint;
use curve25519_dalek::scalar::Scalar;
use rand::rngs::OsRng;

verus! {

/// `curve25519_dalek::scalar::Scalar`, an element of the integers modulo
/// the group order. Its bytes are private to the curve library.
#[verifier::external_type_specification]
#[verifier::external_body]
pub struct ExScalar(Scalar);

/// `curve25519_dalek::ristretto::RistrettoPoint`, an element of the
/// Ristretto group.
#[verifier::external_type_specification]
#[verifier::external_body]
pub struct ExRistrettoPoint(RistrettoPoint);

/// `curve25519_dalek::ristretto::CompressedRistretto`, the 32 bytes of an
/// encoded point.
#[verifier::external_type_specification]
#[verifier::external_body]
pub struct ExCompressedRistretto(CompressedRistretto);

/// `rand::rngs::OsRng`, the random number generator of the operating system.
#[verifier::external_type_specification]
#[verifier::external_body]
pub struct ExOsRng(OsRng);

/// The order of the Ristretto group,
/// `2^252 + 27742317777372353535851937790883648493`.
pub open spec fn group_order() -> nat {
    7237005577332262213973186563042994240857116359379907606001950938285454250989nat
}

/// The integer that a scalar holds: the little-endian value of its 32
/// bytes, which the curve library keeps reduced below the group order.
pub uninterp spec fn scalar_value(s: Scalar) -> nat;

/// The exponent of a point relative to the Ristretto base point `B`: the
/// one `k` below the group order with `P = k·B`. The group is cyclic of
/// prime order and `B` generates it, so each point has exactly one.
pub uninterp spec fn discrete_log(p: RistrettoPoint) -> nat;

/// The 32 bytes that an encoded point holds.
pub uninterp spec fn encoding_bytes(c: CompressedRistretto) -> Seq<u8>;

/// The Ristretto encoding of the group element `log·B`.
pub uninterp spec fn ristretto_encoding(log: nat) -> Seq<u8>;

/// Whether `bytes` are the encoding of the group element `log·B`, and of no
/// other element of the group.
pub open spec fn is_encoding_of(bytes: Seq<u8>, log: nat) -> bool {
    &&& bytes == ristretto_encoding(log)
    &&& bytes.len() == 32
    &&& forall|k: nat|
        k < group_order() && #[trigger] ristretto_encoding(k) == bytes ==> k == log
            % group_order()
}

/// Calls `&Scalar * &Scalar` of curve25519-dalek. The claim: the product
/// holds the product of the two integers, reduced modulo the group order
/// (the library does all scalar arithmetic modulo that order).
#[verifier::external_body]
pub(crate) fn scalar_product(s: &Scalar, t: &Scalar) -> (r: Scalar)
    ensures
        scalar_value(r) == (scalar_value(*s) * scalar_value(*t)) % group_order(),
{
    s * t
}

/// Calls `&RistrettoPoint * &Scalar` of curve25519-dalek, scalar
/// multiplication in the group. The claim: multiplying the point `k·B` by
/// the scalar `s` gives `(k·s)·B`, the exponent taken modulo the group order.
#[verifier::external_body]
pub(crate) fn point_multiple(p: &RistrettoPoint, s: &Scalar) -> (r: RistrettoPoint)
    ensures
        discrete_log(r) == (discrete_log(*p) * scalar_value(*s)) % group_order(),
{
    p * s
}

/// Calls `&RistrettoPoint + &RistrettoPoint` of curve25519-dalek, the group
/// operation. The claim: adding `j·B` and `k·B` gives `(j + k)·B`, the
/// exponent taken modulo the group order.
#[verifier::external_body]
pub(crate) fn point_sum(p: &RistrettoPoint, q: &RistrettoPoint) -> (r: RistrettoPoint)
    ensures
        discrete_log(r) == (discrete_log(*p) + discrete_log(*q)) % group_order(),
{
    p + q
}

/// Calls `RistrettoPoint::compress`. The claim: 32 bytes come back; they
/// depend on the group element alone, not on the coordinates that stand for
/// it inside the curve library, and are named `ristretto_encoding`; and the
/// encoding is canonical, as the curve library documents it: no other
/// element of the group has the same bytes.
#[verifier::external_body]
pub(crate) fn point_encoding(p: &RistrettoPoint) -> (r: CompressedRistretto)
    ensures
        encoding_bytes(r) == ristretto_encoding(discrete_log(*p)),
        encoding_bytes(r).len() == 32,
        forall|k: nat|
            k < group_order() && #[trigger] ristretto_encoding(k) == encoding_bytes(r) ==> k
                == discrete_log(*p) % group_order(),
{
    p.compress()
}

/// Calls `Scalar::random` with the generator of the operating system. The
/// claim: what comes back is a reduced scalar; which one is left open, so
/// two calls may differ. The call panics if the operating system cannot
/// supply random bytes.
#[verifier::external_body]
pub(crate) fn random_scalar(rng: &mut OsRng) -> (r: Scalar)
    ensures
        scalar_value(r) < group_order(),
{
    Scalar::random(rng)
}

} // verus!
