//! The linear hash over a Diffie-Hellman language.
//!
//! The language is fixed by a generator `G` and a secret exponent `h`; its
//! elements are the pairs `(w·G, (h·w)·G)`. A private key `(a, b)` hashes
//! any pair `(x, y)` to `a·x + b·y`. Its projection `hp = (a + b·h)·G`
//! hashes an element of the language to `w·hp` from the witness `w` alone,
//! and the two hashes are the same group element.
use vstd::prelude::*;
use vstd::arithmetic::div_mod::lemma_add_mod_noop;
use vstd::arithmetic::div_mod::lemma_mul_mod_noop_right;
use curve25519_dalek::ristretto::CompressedRistretto;
use curve25519_dalek::ristretto::RistrettoPoint;
use curve25519_dalek::scalar::Scalar;
use rand::rngs::OsRng;
use crate::group::discrete_log;
use crate::group::encoding_bytes;
use crate::group::group_order;
use crate::group::is_encoding_of;
use crate::group::point_encoding;
use crate::group::point_multiple;
use crate::group::point_sum;
use crate::group::random_scalar;
use crate::group::ristretto_encoding;
use crate::group::scalar_product;
use crate::group::scalar_value;
use crate::model::commitment_of;
use crate::model::hash_of;
use crate::model::lemma_hash_gap;
use crate::model::lemma_hashes_agree_on_language;
use crate::model::proj_hash_of;
use crate::model::projection_of;
use crate::model::CommitmentView;
use crate::model::LanguageView;
use crate::model::PriveKeyView;

verus! {

/// The public parameters of the language: the generator `g` and the secret
/// exponent `h`.
pub struct Language {
    pub g: RistrettoPoint,
    pub h: Scalar,
}

/// A candidate element of the language, the pair `(x, y)`.
pub struct Commitment {
    x: RistrettoPoint,
    y: RistrettoPoint,
}

/// A private hashing key: the exponents `a` and `b`, and the language they
/// hash under.
pub struct PriveKey {
    group: &'static Language,
    a: Scalar,
    b: Scalar,
}

/// A projection key: the group element `hp`.
pub struct PublicKey {
    hp: RistrettoPoint,
}

/// The scheme: issues private keys under one language.
pub struct LiteSPHF {
    language: &'static Language,
}

impl View for Language {
    type V = LanguageView;

    /// The exponent of the generator relative to the base point, and the
    /// integer that `h` holds.
    open spec fn view(&self) -> LanguageView {
        LanguageView { g: discrete_log(self.g), h: scalar_value(self.h) }
    }
}

impl View for Commitment {
    type V = CommitmentView;

    /// The exponents of the two coordinates relative to the base point.
    closed spec fn view(&self) -> CommitmentView {
        CommitmentView { x: discrete_log(self.x), y: discrete_log(self.y) }
    }
}

impl View for PriveKey {
    type V = PriveKeyView;

    /// The integers that `a` and `b` hold, with the parameters of the
    /// language.
    closed spec fn view(&self) -> PriveKeyView {
        PriveKeyView { language: self.group@, a: scalar_value(self.a), b: scalar_value(self.b) }
    }
}

impl View for PublicKey {
    type V = nat;

    /// The exponent of `hp` relative to the base point.
    closed spec fn view(&self) -> nat {
        discrete_log(self.hp)
    }
}

impl View for LiteSPHF {
    type V = LanguageView;

    /// The parameters of the language the scheme is bound to.
    closed spec fn view(&self) -> LanguageView {
        self.language@
    }
}

impl LiteSPHF {
    /// The private key `(a, b)` under the language of this scheme.
    pub fn key_from_scalars(&self, a: Scalar, b: Scalar) -> (key: PriveKey)
        ensures
            key@ == (PriveKeyView { language: self@, a: scalar_value(a), b: scalar_value(b) }),
    {
        PriveKey { group: self.language, a, b }
    }
}

impl crate::SmoothProjectiveHash for LiteSPHF {
    type Output = CompressedRistretto;

    type Language = Language;

    type PriveKey = PriveKey;

    open spec fn bound_to(&self, language: &Language) -> bool {
        self@ == language@
    }

    open spec fn issues(&self, key: &PriveKey) -> bool {
        &&& key@.language == self@
        &&& key@.a < group_order()
        &&& key@.b < group_order()
    }

    /// A scheme bound to `language`.
    fn new(language: &'static Language) -> (scheme: Self)
        ensures
            scheme@ == language@,
    {
        LiteSPHF { language }
    }

    /// A fresh private key under the language of this scheme, its two
    /// exponents drawn from `rng`. Which exponents come back is left open.
    fn keygen(&self, rng: &mut OsRng) -> (key: PriveKey)
        ensures
            key@.language == self@,
            key@.a < group_order(),
            key@.b < group_order(),
    {
        let a = random_scalar(rng);
        let b = random_scalar(rng);
        self.key_from_scalars(a, b)
    }
}

impl crate::Language for Language {
    type Input = Scalar;

    type Witness = Scalar;

    type Element = Commitment;

    open spec fn commits_to(&self, witness: &Scalar, input: &Scalar, element: &Commitment) -> bool {
        element@ == commitment_of(self@, scalar_value(*witness), scalar_value(*input))
    }

    /// The element `(w·G, (h·m)·G)` for the witness `w` and the input `m`.
    /// It belongs to the language of `w` when `m` is `w`.
    fn commitment(&self, witness: &Scalar, input: &Scalar) -> (element: Commitment)
        ensures
            element@ == commitment_of(self@, scalar_value(*witness), scalar_value(*input)),
    {
        let x = point_multiple(&self.g, witness);
        let hm = scalar_product(&self.h, input);
        let y = point_multiple(&self.g, &hm);
        proof {
            let l = group_order() as int;
            let g = discrete_log(self.g) as int;
            let h = scalar_value(self.h) as int;
            let w = scalar_value(*witness) as int;
            let m = scalar_value(*input) as int;
            lemma_mul_mod_noop_right(g, h * m, l);
            assert(g * (h * m) == h * m * g) by (nonlinear_arith);
            assert(g * w == w * g) by (nonlinear_arith);
        }
        Commitment { x, y }
    }
}

impl crate::PriveHash<Language, CompressedRistretto> for PriveKey {
    type PublicKey = PublicKey;

    open spec fn projects_to(&self, key: &PublicKey) -> bool {
        key@ == projection_of(self@)
    }

    open spec fn hashes_to(&self, target: &Commitment, output: &CompressedRistretto) -> bool {
        is_encoding_of(encoding_bytes(*output), hash_of(self@, target@))
    }

    /// The projection key `hp = a·G + b·(h·G)`.
    fn proj_keygen(&self) -> (key: PublicKey)
        ensures
            key@ == projection_of(self@),
    {
        let ga = point_multiple(&self.group.g, &self.a);
        let hb = scalar_product(&self.group.h, &self.b);
        let ghb = point_multiple(&self.group.g, &hb);
        let hp = point_sum(&ga, &ghb);
        proof {
            let l = group_order() as int;
            let g = discrete_log(self.group.g) as int;
            let h = scalar_value(self.group.h) as int;
            let a = scalar_value(self.a) as int;
            let b = scalar_value(self.b) as int;
            lemma_mul_mod_noop_right(g, h * b, l);
            lemma_add_mod_noop(g * a, g * (h * b), l);
            assert(g * a + g * (h * b) == (a + b * h) * g) by (nonlinear_arith);
        }
        PublicKey { hp }
    }

    /// The encoded private hash `a·x + b·y` of `target`.
    fn hash(&self, target: &Commitment) -> (output: CompressedRistretto)
        ensures
            is_encoding_of(encoding_bytes(output), hash_of(self@, target@)),
    {
        let xa = point_multiple(&target.x, &self.a);
        let yb = point_multiple(&target.y, &self.b);
        let sum = point_sum(&xa, &yb);
        proof {
            let l = group_order() as int;
            let x = discrete_log(target.x) as int;
            let y = discrete_log(target.y) as int;
            let a = scalar_value(self.a) as int;
            let b = scalar_value(self.b) as int;
            lemma_add_mod_noop(x * a, y * b, l);
            assert(x * a == a * x) by (nonlinear_arith);
            assert(y * b == b * y) by (nonlinear_arith);
        }
        point_encoding(&sum)
    }
}

impl crate::PublicHash<Language, CompressedRistretto> for PublicKey {
    open spec fn proj_hashes_to(
        &self,
        witness: &Scalar,
        target: &Commitment,
        output: &CompressedRistretto,
    ) -> bool {
        is_encoding_of(encoding_bytes(*output), proj_hash_of(self@, scalar_value(*witness)))
    }

    /// The encoded public hash `w·hp` under `witness`. The coordinates of
    /// the element take no part in it.
    fn proj_hash(&self, witness: &Scalar, _target: &Commitment) -> (output: CompressedRistretto)
        ensures
            is_encoding_of(encoding_bytes(output), proj_hash_of(self@, scalar_value(*witness))),
    {
        let scaled = point_multiple(&self.hp, witness);
        proof {
            let hp = discrete_log(self.hp) as int;
            let w = scalar_value(*witness) as int;
            assert(hp * w == w * hp) by (nonlinear_arith);
        }
        point_encoding(&scaled)
    }
}

/// Completeness. Take any language, any private key under it and any
/// witness. For the element built with the input equal to the witness, every
/// output of `hash` under the private key and every output of `proj_hash`
/// under the projected key and that witness hold the same bytes.
pub proof fn lemma_private_and_public_hash_agree(
    language: Language,
    key: PriveKey,
    public: PublicKey,
    witness: Scalar,
    element: Commitment,
    private_output: CompressedRistretto,
    public_output: CompressedRistretto,
)
    requires
        key@.language == language@,
        crate::Language::commits_to(&language, &witness, &witness, &element),
        crate::PriveHash::projects_to(&key, &public),
        crate::PriveHash::hashes_to(&key, &element, &private_output),
        crate::PublicHash::proj_hashes_to(&public, &witness, &element, &public_output),
    ensures
        encoding_bytes(private_output) == encoding_bytes(public_output),
{
    lemma_hashes_agree_on_language(key@, scalar_value(witness));
}

/// Take any language, any private key `(a, b)` under it, any witness `w`
/// and any input `m`. For the element built from `w` and `m`, an output of
/// `hash` under the private key and an output of `proj_hash` under the
/// projected key and `w` hold the same bytes exactly when `b·h·g·(m − w)`
/// is a multiple of the group order, `g` being the exponent of the
/// generator. Off the language the two hashes are `b·h·(m − w)·G` apart.
pub proof fn lemma_hashes_agree_exactly_when(
    language: Language,
    key: PriveKey,
    public: PublicKey,
    witness: Scalar,
    input: Scalar,
    element: Commitment,
    private_output: CompressedRistretto,
    public_output: CompressedRistretto,
)
    requires
        key@.language == language@,
        crate::Language::commits_to(&language, &witness, &input, &element),
        crate::PriveHash::projects_to(&key, &public),
        crate::PriveHash::hashes_to(&key, &element, &private_output),
        crate::PublicHash::proj_hashes_to(&public, &witness, &element, &public_output),
    ensures
        encoding_bytes(private_output) == encoding_bytes(public_output) <==> (key@.b * language@.h
            * language@.g * (scalar_value(input) - scalar_value(witness))) % (group_order() as int)
            == 0,
{
    lemma_hash_gap(key@, scalar_value(witness), scalar_value(input));
    let private_log = hash_of(key@, element@);
    let public_log = proj_hash_of(public@, scalar_value(witness));
    if encoding_bytes(private_output) == encoding_bytes(public_output) {
        assert(ristretto_encoding(public_log) == encoding_bytes(private_output));
        assert(public_log == private_log);
    }
}

/// Two private keys give one element the same hash bytes exactly when they
/// give it the same group element: the encoding keeps distinct hashes apart.
pub proof fn lemma_hash_bytes_tell_keys_apart(
    first_key: PriveKey,
    second_key: PriveKey,
    target: Commitment,
    first: CompressedRistretto,
    second: CompressedRistretto,
)
    requires
        crate::PriveHash::hashes_to(&first_key, &target, &first),
        crate::PriveHash::hashes_to(&second_key, &target, &second),
    ensures
        encoding_bytes(first) == encoding_bytes(second) <==> hash_of(first_key@, target@)
            == hash_of(second_key@, target@),
{
    if encoding_bytes(first) == encoding_bytes(second) {
        assert(ristretto_encoding(hash_of(second_key@, target@)) == encoding_bytes(first));
    }
}

/// Two projections of one private key are the same group element, and so
/// have the same encoding.
pub proof fn lemma_proj_keygen_deterministic(key: PriveKey, first: PublicKey, second: PublicKey)
    requires
        crate::PriveHash::projects_to(&key, &first),
        crate::PriveHash::projects_to(&key, &second),
    ensures
        first@ == second@,
        ristretto_encoding(first@) == ristretto_encoding(second@),
{
}

/// Two private hashes of one element under one key hold the same bytes.
pub proof fn lemma_hash_deterministic(
    key: PriveKey,
    target: Commitment,
    first: CompressedRistretto,
    second: CompressedRistretto,
)
    requires
        crate::PriveHash::hashes_to(&key, &target, &first),
        crate::PriveHash::hashes_to(&key, &target, &second),
    ensures
        encoding_bytes(first) == encoding_bytes(second),
{
}

/// Two public hashes under one projection key, one witness and one element
/// hold the same bytes.
pub proof fn lemma_proj_hash_deterministic(
    public: PublicKey,
    witness: Scalar,
    target: Commitment,
    first: CompressedRistretto,
    second: CompressedRistretto,
)
    requires
        crate::PublicHash::proj_hashes_to(&public, &witness, &target, &first),
        crate::PublicHash::proj_hashes_to(&public, &witness, &target, &second),
    ensures
        encoding_bytes(first) == encoding_bytes(second),
{
}

} // verus!
