use vstd::prelude::*;

verus! {

/// The habitat whose species are described in the alternate style.
pub open spec fn cave_habitat() -> Seq<char> {
    seq!['c', 'a', 'v', 'e']
}

/// Mathematical model of a species record.
pub struct PokemonView {
    pub description: Option<Seq<char>>,
    pub habitat: Option<Seq<char>>,
    pub is_legendary: bool,
    pub name: Seq<char>,
}

impl PokemonView {
    /// A species is described in the alternate style when it lives in a cave
    /// or is legendary.
    pub open spec fn requires_alternate_style(self) -> bool {
        self.habitat == Some(cave_habitat()) || self.is_legendary
    }

    /// The same record with its description replaced.
    pub open spec fn with_description(self, description: Seq<char>) -> PokemonView {
        PokemonView { description: Some(description), ..self }
    }
}

/// Maps an optional string to its optional character sequence.
pub open spec fn opt_view(o: Option<String>) -> Option<Seq<char>> {
    match o {
        Some(s) => Some(s@),
        None => None,
    }
}

/// A species record: name, optional habitat, optional description and
/// legendary flag.
pub struct Pokemon {
    description: Option<String>,
    habitat: Option<String>,
    is_legendary: bool,
    name: String,
}

impl View for Pokemon {
    type V = PokemonView;

    closed spec fn view(&self) -> PokemonView {
        PokemonView {
            description: opt_view(self.description),
            habitat: opt_view(self.habitat),
            is_legendary: self.is_legendary,
            name: self.name@,
        }
    }
}

impl Pokemon {
    pub fn new(
        description: Option<String>,
        habitat: Option<String>,
        is_legendary: bool,
        name: String,
    ) -> (r: Self)
        ensures
            r@ == (PokemonView {
                description: opt_view(description),
                habitat: opt_view(habitat),
                is_legendary,
                name: name@,
            }),
    {
        Pokemon { description, habitat, is_legendary, name }
    }

    pub fn description(&self) -> (r: &Option<String>)
        ensures
            opt_view(*r) == self@.description,
    {
        &self.description
    }

    pub fn name(&self) -> (r: &str)
        ensures
            r@ == self@.name,
    {
        self.name.as_str()
    }

    pub fn habitat(&self) -> (r: &Option<String>)
        ensures
            opt_view(*r) == self@.habitat,
    {
        &self.habitat
    }

    pub fn is_legendary(&self) -> (r: bool)
        ensures
            r == self@.is_legendary,
    {
        self.is_legendary
    }

    /// Whether the description is to be rendered in the alternate style:
    /// the habitat is exactly `cave`, or the species is legendary.
    pub fn is_cave_or_legendary(&self) -> (r: bool)
        ensures
            r == self@.requires_alternate_style(),
    {
        let in_cave = match &self.habitat {
            Some(h) => {
                let cave = "cave".to_owned();
                proof {
                    reveal_strlit("cave");
                    assert(cave@ =~= cave_habitat());
                }
                *h == cave
            },
            None => false,
        };
        in_cave || self.is_legendary
    }

    /// The same record with `description` in place of its description; every
    /// other field is kept.
    pub fn with_description(self, description: String) -> (r: Self)
        ensures
            r@ == self@.with_description(description@),
    {
        Pokemon {
            description: Some(description),
            habitat: self.habitat,
            is_legendary: self.is_legendary,
            name: self.name,
        }
    }
}

} // verus!
