use vstd::prelude::*;
use vstd::string::StringExecFns;
use crate::pokemon::{Pokemon, PokemonView};

verus! {

/// Name of the species query.
pub const OPERATION_NAME: &'static str = "GqlPokemon";

/// The species query: one species by name, with its habitat, its first
/// English flavor text and its legendary flag.
pub const QUERY: &'static str = "query GqlPokemon($name:String!) {\n    info: pokemon_v2_pokemonspecies(where: {name: {_eq: $name}}) {\n        name\n        habitat: pokemon_v2_pokemonhabitat {\n            name\n        }\n        descriptions: pokemon_v2_pokemonspeciesflavortexts(limit: 1, where: {pokemon_v2_language: {iso639: {_eq: \"en\"}}}) {\n            flavor_text\n        }\n        is_legendary\n    }\n}\n";

/// The species query, as a request to the upstream data source.
pub struct GqlPokemon;

/// Variables of the species query.
pub struct Variables {
    pub name: String,
}

/// The body of a request of the species query.
pub struct QueryBody {
    pub variables: Variables,
    pub query: &'static str,
    pub operation_name: &'static str,
}

impl GqlPokemon {
    /// The request body that asks for the species named in `variables`.
    pub fn build_query(variables: Variables) -> (r: QueryBody)
        ensures
            r.variables == variables,
            r.query == QUERY,
            r.operation_name == OPERATION_NAME,
    {
        QueryBody { variables, query: QUERY, operation_name: OPERATION_NAME }
    }
}

/// Habitat of a species, as the upstream data source reports it.
pub struct GqlPokemonInfoHabitat {
    pub name: String,
}

/// One flavor text of a species, as the upstream data source reports it.
pub struct GqlPokemonInfoDescriptions {
    pub flavor_text: String,
}

/// One species, as the upstream data source reports it.
pub struct GqlPokemonInfo {
    pub name: String,
    pub habitat: Option<GqlPokemonInfoHabitat>,
    pub descriptions: Vec<GqlPokemonInfoDescriptions>,
    pub is_legendary: bool,
}

/// The data of an answer to the species query: the species that matched.
pub struct ResponseData {
    pub info: Vec<GqlPokemonInfo>,
}

/// An answer to the species query: its data, absent when the source answered
/// with errors only, and the text of those errors.
pub struct GqlResponse {
    pub data: Option<ResponseData>,
    pub errors: String,
}

/// The record built from one upstream species: its first flavor text is the
/// description.
pub open spec fn species_of(info: GqlPokemonInfo) -> PokemonView {
    PokemonView {
        description: if info.descriptions@.len() > 0 {
            Some(info.descriptions@[0].flavor_text@)
        } else {
            None
        },
        habitat: match info.habitat {
            Some(h) => Some(h.name@),
            None => None,
        },
        is_legendary: info.is_legendary,
        name: info.name@,
    }
}

pub open spec fn no_data_prefix() -> Seq<char> {
    "Empty response with errors: "@
}

pub open spec fn not_found_message() -> Seq<char> {
    "Pokemon not found"@
}

/// What an answer of the upstream source means: the first species listed, or
/// the reason why there is none.
pub open spec fn species_in(response: GqlResponse) -> Result<PokemonView, Seq<char>> {
    match response.data {
        None => Err(no_data_prefix() + response.errors@),
        Some(data) => if data.info@.len() == 0 {
            Err(not_found_message())
        } else {
            Ok(species_of(data.info@[0]))
        },
    }
}

impl Pokemon {
    /// The record built from one upstream species.
    pub fn from_gql(info: &GqlPokemonInfo) -> (r: Pokemon)
        ensures
            r@ == species_of(*info),
    {
        let description = if info.descriptions.len() > 0 {
            Some(info.descriptions[0].flavor_text.clone())
        } else {
            None
        };
        let habitat = match &info.habitat {
            Some(h) => Some(h.name.clone()),
            None => None,
        };
        Pokemon::new(description, habitat, info.is_legendary, info.name.clone())
    }

    /// Reads an answer of the upstream source: the first species listed, or
    /// the reason why there is none (no data, or an empty list).
    pub fn try_from(response: GqlResponse) -> (r: Result<Pokemon, String>)
        ensures
            match r {
                Ok(p) => species_in(response) == Ok::<PokemonView, Seq<char>>(p@),
                Err(m) => species_in(response) == Err::<PokemonView, Seq<char>>(m@),
            },
    {
        match &response.data {
            None => {
                let message = "Empty response with errors: ".to_owned();
                Err(message.concat(response.errors.as_str()))
            },
            Some(data) => {
                if data.info.len() == 0 {
                    Err("Pokemon not found".to_owned())
                } else {
                    Ok(Pokemon::from_gql(&data.info[0]))
                }
            },
        }
    }
}

} // verus!
