//! The fused record and the fusion operation.

use vstd::prelude::*;

verus! {

/// What a [`Pokemon`] holds, as sequences of characters.
pub struct PokemonView {
    pub name: Seq<char>,
    pub prefix: Seq<char>,
    pub suffix: Seq<char>,
}

/// The fusion of `base` with `other`: the name is the prefix of `base`
/// followed by the suffix of `other`, and the two fragments are kept so
/// that the result can be fused again.
pub open spec fn fuse(base: PokemonView, other: PokemonView) -> PokemonView {
    PokemonView {
        name: base.prefix + other.suffix,
        prefix: base.prefix,
        suffix: other.suffix,
    }
}

/// Fusion is not commutative: there are two different Pokémon whose
/// fusion in one order has another name than their fusion in the other
/// order.
pub proof fn lemma_fusion_is_not_commutative()
    ensures
        exists|a: PokemonView, b: PokemonView|
            a != b && #[trigger] fuse(a, b).name != #[trigger] fuse(b, a).name,
{
    let a = PokemonView { name: seq!['a', 'b'], prefix: seq!['a'], suffix: seq!['b'] };
    let b = PokemonView { name: seq!['c', 'd'], prefix: seq!['c'], suffix: seq!['d'] };
    assert(a.prefix[0] != b.prefix[0]);
    assert(fuse(a, b).name[0] == 'a');
    assert(fuse(b, a).name[0] == 'c');
}

/// A Pokémon: its full name and the two fragments used in fusion.
#[derive(Clone, Debug)]
pub struct Pokemon {
    pub name: String,
    pub prefix: String,
    pub suffix: String,
}

impl View for Pokemon {
    type V = PokemonView;

    open spec fn view(&self) -> PokemonView {
        PokemonView { name: self.name@, prefix: self.prefix@, suffix: self.suffix@ }
    }
}

impl DeepView for Pokemon {
    type V = PokemonView;

    open spec fn deep_view(&self) -> PokemonView {
        self@
    }
}

impl Pokemon {
    /// A Pokémon with the given name and fragments.
    pub fn new(name: String, prefix: String, suffix: String) -> (pokemon: Pokemon)
        ensures
            pokemon@ == (PokemonView { name: name@, prefix: prefix@, suffix: suffix@ }),
    {
        Pokemon { name, prefix, suffix }
    }

    /// Fuses `self`, the base, with `other`.
    pub fn fuse_with(&self, other: &Pokemon) -> (fused: Pokemon)
        ensures
            fused@ == fuse(self@, other@),
    {
        let prefix = &self.prefix;
        let suffix = &other.suffix;
        let name = prefix.clone().concat(suffix.as_str());
        Pokemon::new(name, prefix.clone(), suffix.clone())
    }
}

impl std::ops::Add for Pokemon {
    type Output = Pokemon;

    /// `base + other` is `base.fuse_with(&other)`.
    fn add(self, rhs: Pokemon) -> (fused: Pokemon)
        ensures
            fused@ == fuse(self@, rhs@),
    {
        self.fuse_with(&rhs)
    }
}

/// The sum is pinned down by its view, in the contract of `add` itself:
/// no `Pokemon` is named as the sum, because a `String` is known only by
/// its characters.
impl vstd::std_specs::ops::AddSpecImpl for Pokemon {
    open spec fn obeys_add_spec() -> bool {
        false
    }

    open spec fn add_req(self, rhs: Pokemon) -> bool {
        true
    }

    open spec fn add_spec(self, rhs: Pokemon) -> Pokemon {
        self
    }
}

} // verus!
