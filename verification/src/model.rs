//! The scheme as arithmetic modulo the group order.
//!
//! Every group element is held as its exponent relative to the base point,
//! so that the generator `G` is a number `g`, the element `w·G` is
//! `w·g` modulo the order, and the sum of two elements is the sum of their
//! exponents modulo the order.
use vstd::prelude::*;
use vstd::arithmetic::div_mod::lemma_add_mod_noop;
use vstd::arithmetic::div_mod::lemma_mod_equivalence;
use vstd::arithmetic::div_mod::lemma_mul_mod_noop_right;
use crate::group::group_order;

verus! {

/// Parameters of the language: the generator `G`, held as its exponent
/// `g` relative to the base point, and the secret exponent `h`.
pub struct LanguageView {
    pub g: nat,
    pub h: nat,
}

/// An element `(x, y)` of the group squared, each coordinate held as its
/// exponent relative to the base point.
pub struct CommitmentView {
    pub x: nat,
    pub y: nat,
}

/// A private hashing key `(a, b)` and the language it hashes under.
pub struct PriveKeyView {
    pub language: LanguageView,
    pub a: nat,
    pub b: nat,
}

/// The element `(w·G, (h·m)·G)` that the language builds from the witness
/// `w` and the input `m`.
pub open spec fn commitment_of(language: LanguageView, w: nat, m: nat) -> CommitmentView {
    CommitmentView {
        x: (w * language.g) % group_order(),
        y: (language.h * m * language.g) % group_order(),
    }
}

/// The projection key `hp = (a + b·h)·G`.
pub open spec fn projection_of(key: PriveKeyView) -> nat {
    ((key.a + key.b * key.language.h) * key.language.g) % group_order()
}

/// The private hash `a·x + b·y` of the element `(x, y)`.
pub open spec fn hash_of(key: PriveKeyView, target: CommitmentView) -> nat {
    (key.a * target.x + key.b * target.y) % group_order()
}

/// The public hash `w·hp` under the witness `w`.
pub open spec fn proj_hash_of(hp: nat, w: nat) -> nat {
    (w * hp) % group_order()
}

/// The private hash of the element built from `w` and `m` equals the public
/// hash under `w` exactly when `b·h·g·(m − w)` is a multiple of the group
/// order: the two paths are `b·h·(m − w)·G` apart.
pub proof fn lemma_hash_gap(key: PriveKeyView, w: nat, m: nat)
    ensures
        hash_of(key, commitment_of(key.language, w, m)) == proj_hash_of(projection_of(key), w)
            <==> (key.b * key.language.h * key.language.g * (m - w)) % (group_order() as int) == 0,
{
    let l = group_order() as int;
    let g = key.language.g as int;
    let h = key.language.h as int;
    let a = key.a as int;
    let b = key.b as int;
    let w = w as int;
    let m = m as int;
    let x = (w * g) % l;
    let y = (h * m * g) % l;
    let private_sum = a * (w * g) + b * (h * m * g);
    let public_product = w * ((a + b * h) * g);
    assert((a * x + b * y) % l == private_sum % l) by {
        lemma_mul_mod_noop_right(a, w * g, l);
        lemma_mul_mod_noop_right(b, h * m * g, l);
        lemma_add_mod_noop(a * x, b * y, l);
        lemma_add_mod_noop(a * (w * g), b * (h * m * g), l);
    }
    assert((w * (((a + b * h) * g) % l)) % l == public_product % l) by {
        lemma_mul_mod_noop_right(w, (a + b * h) * g, l);
    }
    let c = b * h * g;
    assert(b * (h * m * g) == c * m) by (nonlinear_arith)
        requires
            c == b * h * g,
    ;
    assert(a * (w * g) == w * (a * g)) by (nonlinear_arith);
    assert((a + b * h) * g == a * g + c) by (nonlinear_arith)
        requires
            c == b * h * g,
    ;
    assert(w * (a * g + c) == w * (a * g) + c * w) by (nonlinear_arith);
    assert(c * (m - w) == c * m - c * w) by (nonlinear_arith);
    assert(private_sum - public_product == c * (m - w));
    lemma_mod_equivalence(private_sum, public_product, l);
}

/// On an element of the language, built with the input equal to the
/// witness, the private hash and the public hash under that witness are the
/// same group element, whatever the parameters, the key and the witness.
pub proof fn lemma_hashes_agree_on_language(key: PriveKeyView, w: nat)
    ensures
        hash_of(key, commitment_of(key.language, w, w)) == proj_hash_of(projection_of(key), w),
{
    lemma_hash_gap(key, w, w);
    assert(key.b * key.language.h * key.language.g * (w - w) == 0) by (nonlinear_arith);
}

} // verus!
