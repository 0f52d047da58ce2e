//! Species lookup enriched with a stylized translation of its description.
//!
//! The translation of a description is driven by [`translator::PokemonTranslator`],
//! a state machine that decides which request to issue next (cache read, one of
//! two translators, cache write) and absorbs every failure of those requests.
//! The caller performs the requests and feeds their outcomes back; [`laws`]
//! states and proves what a whole translation does against any behaviour of
//! the services.
pub mod funtranslation;
pub mod handler;
pub mod laws;
pub mod pokeapi;
pub mod pokemon;
pub mod settings;
pub mod translator;
