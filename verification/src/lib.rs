//! Pokémon fusion: a store of name fragments keyed by id, and the
//! operation that fuses two Pokémon into a new one.

pub mod pokemon;
pub mod store;
pub mod table;

pub use pokemon::Pokemon;
pub use store::{LoadError, PokemonDb};
