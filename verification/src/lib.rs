//! Smooth projective hashing: a keyed hash with a private and a public way
//! of evaluating it, which agree on the elements of a language.
//!
//! The private key hashes any element. Its projection, together with a
//! witness that an element belongs to the language, gives the same hash
//! without the private key.
use vstd::prelude::*;
use rand::rngs::OsRng;

pub mod group;
pub mod lite;
pub mod model;

verus! {

/// A smooth projective hash scheme: binds a language to the generation of
/// private hashing keys.
pub trait SmoothProjectiveHash: Sized {
    type Output;

    type Language: Language;

    type PriveKey: PriveHash<Self::Language, Self::Output>;

    /// Whether this scheme issues its keys under `language`.
    spec fn bound_to(&self, language: &Self::Language) -> bool;

    /// Whether `key` is a key of this scheme: one that hashes under the
    /// language the scheme is bound to.
    spec fn issues(&self, key: &Self::PriveKey) -> bool;

    /// A scheme bound to `language`.
    fn new(language: &'static Self::Language) -> (scheme: Self)
        ensures
            scheme.bound_to(language),
    ;

    /// A fresh private key of this scheme, drawn from `rng`.
    fn keygen(&self, rng: &mut OsRng) -> (key: Self::PriveKey)
        ensures
            self.issues(&key),
    ;
}

/// A language: a relation over elements, with the operation that builds
/// the element belonging to a witness and an input.
pub trait Language {
    type Input;

    type Witness;

    type Element;

    /// Whether `element` is the element this language builds from
    /// `witness` and `input`.
    spec fn commits_to(
        &self,
        witness: &Self::Witness,
        input: &Self::Input,
        element: &Self::Element,
    ) -> bool;

    /// The element that belongs to `witness` and `input`.
    fn commitment(&self, witness: &Self::Witness, input: &Self::Input) -> (element: Self::Element)
        ensures
            self.commits_to(witness, input, &element),
    ;
}

/// The public (projection) side of a hashing key: hashes an element of the
/// language from a witness of its membership.
pub trait PublicHash<L, O> where L: Language {
    /// Whether `output` is the hash this key gives to `target` under `witness`.
    spec fn proj_hashes_to(&self, witness: &L::Witness, target: &L::Element, output: &O) -> bool;

    /// The hash of `target`, from a witness of its membership.
    fn proj_hash(&self, witness: &L::Witness, target: &L::Element) -> (output: O)
        ensures
            self.proj_hashes_to(witness, target, &output),
    ;
}

/// The private side of a hashing key: hashes any element directly, and
/// derives the projection key.
pub trait PriveHash<L, O> where L: Language {
    type PublicKey: PublicHash<L, O>;

    /// Whether `key` is the projection of this private key.
    spec fn projects_to(&self, key: &Self::PublicKey) -> bool;

    /// Whether `output` is the hash this key gives to `target`.
    spec fn hashes_to(&self, target: &L::Element, output: &O) -> bool;

    /// The projection of this private key, which may be published.
    fn proj_keygen(&self) -> (key: Self::PublicKey)
        ensures
            self.projects_to(&key),
    ;

    /// The hash of `target`, from the private key alone.
    fn hash(&self, target: &L::Element) -> (output: O)
        ensures
            self.hashes_to(target, &output),
    ;
}

} // verus!
