use vstd::prelude::*;
use crate::pokemon::{Pokemon, PokemonView};

verus! {

/// What the caller learnt from the request it performed last, handed back to
/// the translator.
pub enum Event {
    /// No request has been made yet: the translation begins.
    Start,
    /// The cache holds this translated description for the species.
    CacheHit(String),
    /// The cache holds nothing for the species.
    CacheMiss,
    /// The cache could not be read.
    CacheError,
    /// The translator returned this text.
    Translated(String),
    /// The translator could not be reached or answered badly.
    TranslationFailed,
    /// The cache stored the translated description.
    CacheWritten,
    /// The cache could not store the translated description.
    CacheWriteFailed,
}

/// Model of an [`Event`].
pub enum EventView {
    Start,
    CacheHit(Seq<char>),
    CacheMiss,
    CacheError,
    Translated(Seq<char>),
    TranslationFailed,
    CacheWritten,
    CacheWriteFailed,
}

impl View for Event {
    type V = EventView;

    open spec fn view(&self) -> EventView {
        match self {
            Event::Start => EventView::Start,
            Event::CacheHit(v) => EventView::CacheHit(v@),
            Event::CacheMiss => EventView::CacheMiss,
            Event::CacheError => EventView::CacheError,
            Event::Translated(t) => EventView::Translated(t@),
            Event::TranslationFailed => EventView::TranslationFailed,
            Event::CacheWritten => EventView::CacheWritten,
            Event::CacheWriteFailed => EventView::CacheWriteFailed,
        }
    }
}

/// What the translator asks its caller to do next.
pub enum Action {
    /// Look up the translated description cached under this species name.
    ReadCache(String),
    /// Translate this text into the alternate (Yoda) style.
    TranslateToYoda(String),
    /// Translate this text into the default (Shakespeare) style.
    TranslateToShakespeare(String),
    /// Store this translated description (second) under this species name
    /// (first). A failure is of no consequence to the result.
    WriteCache(String, String),
    /// The translation is over: this is the record to answer with.
    Reply(Pokemon),
}

/// Model of an [`Action`].
pub enum ActionView {
    ReadCache(Seq<char>),
    TranslateToYoda(Seq<char>),
    TranslateToShakespeare(Seq<char>),
    WriteCache(Seq<char>, Seq<char>),
    Reply(PokemonView),
}

impl View for Action {
    type V = ActionView;

    open spec fn view(&self) -> ActionView {
        match self {
            Action::ReadCache(n) => ActionView::ReadCache(n@),
            Action::TranslateToYoda(t) => ActionView::TranslateToYoda(t@),
            Action::TranslateToShakespeare(t) => ActionView::TranslateToShakespeare(t@),
            Action::WriteCache(n, t) => ActionView::WriteCache(n@, t@),
            Action::Reply(p) => ActionView::Reply(p@),
        }
    }
}

/// Where a translation stands.
enum Stage {
    /// Nothing has been requested yet.
    Ready(Pokemon),
    /// The cache was asked for the species; the second field is the
    /// untranslated description.
    AwaitingCache(Pokemon, String),
    /// One translator was asked for the description.
    AwaitingTranslation(Pokemon),
    /// The cache was asked to store the translated description (second field).
    AwaitingCacheWrite(Pokemon, String),
    /// The reply has been handed out.
    Finished,
}

/// Model of a [`Stage`].
pub enum StageView {
    Ready(PokemonView),
    AwaitingCache(PokemonView, Seq<char>),
    AwaitingTranslation(PokemonView),
    AwaitingCacheWrite(PokemonView, Seq<char>),
    Finished,
}

impl View for Stage {
    type V = StageView;

    closed spec fn view(&self) -> StageView {
        match self {
            Stage::Ready(p) => StageView::Ready(p@),
            Stage::AwaitingCache(p, d) => StageView::AwaitingCache(p@, d@),
            Stage::AwaitingTranslation(p) => StageView::AwaitingTranslation(p@),
            Stage::AwaitingCacheWrite(p, t) => StageView::AwaitingCacheWrite(p@, t@),
            Stage::Finished => StageView::Finished,
        }
    }
}

/// The translator request for `description` of species `p`: the alternate
/// style for a cave-dwelling or legendary species, the default style otherwise.
pub open spec fn translation_request(p: PokemonView, description: Seq<char>) -> ActionView {
    if p.requires_alternate_style() {
        ActionView::TranslateToYoda(description)
    } else {
        ActionView::TranslateToShakespeare(description)
    }
}

/// The translation policy: the next stage and request after event `e` in
/// stage `s`, or `None` where `s` does not expect `e`.
///
/// - A species without description is answered as it is, with no request.
/// - Otherwise the cache is read first; a hit is the answer.
/// - A miss or a cache error leads to exactly one translator request.
/// - A failed translation answers with the original record, and nothing is
///   written to the cache.
/// - A successful translation is written to the cache, and whatever the
///   write's outcome the answer carries the translated description.
pub open spec fn next(s: StageView, e: EventView) -> Option<(StageView, ActionView)> {
    match s {
        StageView::Ready(p) => match e {
            EventView::Start => match p.description {
                None => Some((StageView::Finished, ActionView::Reply(p))),
                Some(d) => Some((StageView::AwaitingCache(p, d), ActionView::ReadCache(p.name))),
            },
            _ => None,
        },
        StageView::AwaitingCache(p, d) => match e {
            EventView::CacheHit(v) => Some(
                (StageView::Finished, ActionView::Reply(p.with_description(v))),
            ),
            EventView::CacheMiss | EventView::CacheError => Some(
                (StageView::AwaitingTranslation(p), translation_request(p, d)),
            ),
            _ => None,
        },
        StageView::AwaitingTranslation(p) => match e {
            EventView::Translated(t) => Some(
                (StageView::AwaitingCacheWrite(p, t), ActionView::WriteCache(p.name, t)),
            ),
            EventView::TranslationFailed => Some((StageView::Finished, ActionView::Reply(p))),
            _ => None,
        },
        StageView::AwaitingCacheWrite(p, t) => match e {
            EventView::CacheWritten | EventView::CacheWriteFailed => Some(
                (StageView::Finished, ActionView::Reply(p.with_description(t))),
            ),
            _ => None,
        },
        StageView::Finished => None,
    }
}

/// Decides, one request at a time, how the description of one species is
/// translated. The caller performs each [`Action`] it is handed and reports
/// the outcome as an [`Event`], until the action is [`Action::Reply`].
pub struct PokemonTranslator {
    stage: Stage,
}

impl View for PokemonTranslator {
    type V = StageView;

    closed spec fn view(&self) -> StageView {
        self.stage@
    }
}

impl PokemonTranslator {
    /// A translation of `pokemon` that has not begun: feed it [`Event::Start`].
    pub fn new(pokemon: Pokemon) -> (r: Self)
        ensures
            r@ == StageView::Ready(pokemon@),
    {
        PokemonTranslator { stage: Stage::Ready(pokemon) }
    }

    /// Whether the translation expects `event` now.
    pub fn accepts(&self, event: &Event) -> (r: bool)
        ensures
            r == next(self@, event@) is Some,
    {
        match (&self.stage, event) {
            (Stage::Ready(_), Event::Start) => true,
            (Stage::AwaitingCache(_, _), Event::CacheHit(_)) => true,
            (Stage::AwaitingCache(_, _), Event::CacheMiss) => true,
            (Stage::AwaitingCache(_, _), Event::CacheError) => true,
            (Stage::AwaitingTranslation(_), Event::Translated(_)) => true,
            (Stage::AwaitingTranslation(_), Event::TranslationFailed) => true,
            (Stage::AwaitingCacheWrite(_, _), Event::CacheWritten) => true,
            (Stage::AwaitingCacheWrite(_, _), Event::CacheWriteFailed) => true,
            _ => false,
        }
    }

    /// Whether the reply has been handed out.
    pub fn is_finished(&self) -> (r: bool)
        ensures
            r == (self@ is Finished),
    {
        match self.stage {
            Stage::Finished => true,
            _ => false,
        }
    }

    /// Takes the outcome of the last request and returns the translation's
    /// new state together with the next request (see [`next`]).
    pub fn step(self, event: Event) -> (r: (PokemonTranslator, Action))
        requires
            next(self@, event@) is Some,
        ensures
            next(self@, event@) == Some((r.0@, r.1@)),
    {
        match self.stage {
            Stage::Ready(pokemon) => {
                let description = match pokemon.description() {
                    Some(d) => Some(d.clone()),
                    None => None,
                };
                match description {
                    None => (PokemonTranslator { stage: Stage::Finished }, Action::Reply(pokemon)),
                    Some(d) => {
                        let name = pokemon.name().to_owned();
                        (
                            PokemonTranslator { stage: Stage::AwaitingCache(pokemon, d) },
                            Action::ReadCache(name),
                        )
                    },
                }
            },
            Stage::AwaitingCache(pokemon, description) => match event {
                Event::CacheHit(cached) => (
                    PokemonTranslator { stage: Stage::Finished },
                    Action::Reply(pokemon.with_description(cached)),
                ),
                _ => {
                    let request = if pokemon.is_cave_or_legendary() {
                        Action::TranslateToYoda(description)
                    } else {
                        Action::TranslateToShakespeare(description)
                    };
                    (PokemonTranslator { stage: Stage::AwaitingTranslation(pokemon) }, request)
                },
            },
            Stage::AwaitingTranslation(pokemon) => match event {
                Event::Translated(text) => {
                    let name = pokemon.name().to_owned();
                    let stored = text.clone();
                    (
                        PokemonTranslator { stage: Stage::AwaitingCacheWrite(pokemon, text) },
                        Action::WriteCache(name, stored),
                    )
                },
                _ => (PokemonTranslator { stage: Stage::Finished }, Action::Reply(pokemon)),
            },
            Stage::AwaitingCacheWrite(pokemon, text) => (
                PokemonTranslator { stage: Stage::Finished },
                Action::Reply(pokemon.with_description(text)),
            ),
            Stage::Finished => vstd::pervasive::unreached(),
        }
    }
}

} // verus!
