use vstd::prelude::*;
use crate::pokeapi::{species_in, GqlResponse};
use crate::pokemon::Pokemon;

verus! {

/// Why a lookup request cannot be answered with a record.
pub enum PokedexError {
    /// The upstream source has no such species; carries the reason.
    InvalidRequest(String),
    /// The upstream source could not be reached or answered unreadably;
    /// carries the cause.
    UnexpectedError(String),
}

/// The HTTP status for an unknown species.
pub const NOT_FOUND: u16 = 404;

/// The HTTP status for a failure of the upstream source.
pub const INTERNAL_SERVER_ERROR: u16 = 500;

impl PokedexError {
    /// The HTTP status that answers this error.
    pub fn status_code(&self) -> (r: u16)
        ensures
            r == (if self is InvalidRequest {
                NOT_FOUND
            } else {
                INTERNAL_SERVER_ERROR
            }),
    {
        match self {
            PokedexError::InvalidRequest(_) => NOT_FOUND,
            PokedexError::UnexpectedError(_) => INTERNAL_SERVER_ERROR,
        }
    }

    /// The reason or cause carried by the error.
    pub fn message(&self) -> (r: &String)
        ensures
            r == match self {
                PokedexError::InvalidRequest(m) => m,
                PokedexError::UnexpectedError(m) => m,
            },
    {
        match self {
            PokedexError::InvalidRequest(m) => m,
            PokedexError::UnexpectedError(m) => m,
        }
    }
}

/// The record that a lookup answers with, from the outcome of the upstream
/// fetch: a transport or parse failure (`Err`, with its cause), or an answer
/// of the source. A failed fetch is an unexpected error; an answer without
/// data or with an empty list is an invalid request.
pub fn retrieve_pokemon(fetched: Result<GqlResponse, String>) -> (r: Result<Pokemon, PokedexError>)
    ensures
        match fetched {
            Err(cause) => r matches Err(PokedexError::UnexpectedError(c)) && c@ == cause@,
            Ok(response) => match species_in(response) {
                Ok(p) => r matches Ok(q) && q@ == p,
                Err(m) => r matches Err(PokedexError::InvalidRequest(reason)) && reason@ == m,
            },
        },
{
    match fetched {
        Err(cause) => Err(PokedexError::UnexpectedError(cause)),
        Ok(response) => match Pokemon::try_from(response) {
            Ok(p) => Ok(p),
            Err(reason) => Err(PokedexError::InvalidRequest(reason)),
        },
    }
}

} // verus!
