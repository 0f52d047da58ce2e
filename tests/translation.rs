use pokedex::pokemon::Pokemon;
use pokedex::translator::{Action, Event, PokemonTranslator};

const POKEMON_DESCRIPTION: &str = "pokemon_description";
const TRANSLATED_DESCRIPTION: &str = "translated_translation";
const POKEMON_NAME: &str = "pokemon_name";

/// Stand-ins for the outside services, recording every request made to them.
struct Services {
    cache: Vec<(String, String)>,
    cache_readable: bool,
    cache_writable: bool,
    yoda: Option<String>,
    shakespeare: Option<String>,
    cache_reads: Vec<String>,
    cache_writes: Vec<(String, String)>,
    yoda_calls: Vec<String>,
    shakespeare_calls: Vec<String>,
}

impl Services {
    fn new(yoda: Option<&str>, shakespeare: Option<&str>) -> Services {
        Services {
            cache: Vec::new(),
            cache_readable: true,
            cache_writable: true,
            yoda: yoda.map(|s| s.to_string()),
            shakespeare: shakespeare.map(|s| s.to_string()),
            cache_reads: Vec::new(),
            cache_writes: Vec::new(),
            yoda_calls: Vec::new(),
            shakespeare_calls: Vec::new(),
        }
    }

    fn with_cached(mut self, name: &str, text: &str) -> Services {
        self.cache.push((name.to_string(), text.to_string()));
        self
    }

    fn perform(&mut self, action: &Action) -> Event {
        match action {
            Action::ReadCache(name) => {
                self.cache_reads.push(name.clone());
                if !self.cache_readable {
                    return Event::CacheError;
                }
                match self.cache.iter().find(|(n, _)| n == name) {
                    Some((_, text)) => Event::CacheHit(text.clone()),
                    None => Event::CacheMiss,
                }
            }
            Action::TranslateToYoda(text) => {
                self.yoda_calls.push(text.clone());
                match &self.yoda {
                    Some(t) => Event::Translated(t.clone()),
                    None => Event::TranslationFailed,
                }
            }
            Action::TranslateToShakespeare(text) => {
                self.shakespeare_calls.push(text.clone());
                match &self.shakespeare {
                    Some(t) => Event::Translated(t.clone()),
                    None => Event::TranslationFailed,
                }
            }
            Action::WriteCache(name, text) => {
                self.cache_writes.push((name.clone(), text.clone()));
                if !self.cache_writable {
                    return Event::CacheWriteFailed;
                }
                self.cache.retain(|(n, _)| n != name);
                self.cache.push((name.clone(), text.clone()));
                Event::CacheWritten
            }
            Action::Reply(_) => panic!("a reply is not performed"),
        }
    }
}

fn translate(services: &mut Services, pokemon: Pokemon) -> Pokemon {
    let mut translator = PokemonTranslator::new(pokemon);
    let mut event = Event::Start;
    loop {
        assert!(translator.accepts(&event));
        let (next, action) = translator.step(event);
        translator = next;
        if let Action::Reply(p) = action {
            assert!(translator.is_finished());
            return p;
        }
        event = services.perform(&action);
    }
}

fn described(habitat: Option<&str>, is_legendary: bool) -> Pokemon {
    Pokemon::new(
        Some(POKEMON_DESCRIPTION.to_string()),
        habitat.map(|h| h.to_string()),
        is_legendary,
        POKEMON_NAME.to_string(),
    )
}

#[test]
fn translate_pokemon_service_translates_to_yoda_and_cache_uncached_legendary_pokemon() {
    let mut services = Services::new(Some(TRANSLATED_DESCRIPTION), Some("unused"));
    let translated = translate(&mut services, described(None, true));
    assert_eq!(translated.description().as_deref(), Some(TRANSLATED_DESCRIPTION));
    assert_eq!(services.yoda_calls, vec![POKEMON_DESCRIPTION.to_string()]);
    assert!(services.shakespeare_calls.is_empty());
    assert_eq!(services.cache_reads, vec![POKEMON_NAME.to_string()]);
    assert_eq!(
        services.cache_writes,
        vec![(POKEMON_NAME.to_string(), TRANSLATED_DESCRIPTION.to_string())]
    );
}

#[test]
fn translate_pokemon_service_translates_and_cache_uncached_to_yoda_cave_pokemon() {
    let mut services = Services::new(Some(TRANSLATED_DESCRIPTION), Some("unused"));
    let translated = translate(&mut services, described(Some("cave"), false));
    assert_eq!(translated.description().as_deref(), Some(TRANSLATED_DESCRIPTION));
    assert_eq!(services.yoda_calls, vec![POKEMON_DESCRIPTION.to_string()]);
    assert!(services.shakespeare_calls.is_empty());
    assert_eq!(
        services.cache_writes,
        vec![(POKEMON_NAME.to_string(), TRANSLATED_DESCRIPTION.to_string())]
    );
}

#[test]
fn translate_pokemon_service_translates_to_shakespeare_and_cache_uncached_correct_pokemon() {
    let mut services = Services::new(Some("unused"), Some(TRANSLATED_DESCRIPTION));
    let translated = translate(&mut services, described(None, false));
    assert_eq!(translated.description().as_deref(), Some(TRANSLATED_DESCRIPTION));
    assert_eq!(services.shakespeare_calls, vec![POKEMON_DESCRIPTION.to_string()]);
    assert!(services.yoda_calls.is_empty());
    assert_eq!(
        services.cache_writes,
        vec![(POKEMON_NAME.to_string(), TRANSLATED_DESCRIPTION.to_string())]
    );
}

#[test]
fn translate_pokemon_service_translates_retrieve_cached_description() {
    let mut services = Services::new(Some("unused"), Some("unused"))
        .with_cached(POKEMON_NAME, TRANSLATED_DESCRIPTION);
    let translated = translate(&mut services, described(None, false));
    assert_eq!(translated.description().as_deref(), Some(TRANSLATED_DESCRIPTION));
    assert!(services.yoda_calls.is_empty());
    assert!(services.shakespeare_calls.is_empty());
    assert!(services.cache_writes.is_empty());
}

#[test]
fn no_description_is_returned_unchanged_without_requests() {
    let mut services = Services::new(Some("unused"), Some("unused"));
    let pokemon = Pokemon::new(None, Some("cave".to_string()), true, "ditto".to_string());
    let translated = translate(&mut services, pokemon);
    assert_eq!(translated.description(), &None);
    assert_eq!(translated.habitat().as_deref(), Some("cave"));
    assert!(translated.is_legendary());
    assert_eq!(translated.name(), "ditto");
    assert!(services.cache_reads.is_empty());
    assert!(services.cache_writes.is_empty());
    assert!(services.yoda_calls.is_empty());
    assert!(services.shakespeare_calls.is_empty());
}

#[test]
fn cache_error_is_treated_as_a_miss() {
    let mut services = Services::new(Some("unused"), Some(TRANSLATED_DESCRIPTION))
        .with_cached(POKEMON_NAME, "stale");
    services.cache_readable = false;
    let translated = translate(&mut services, described(Some("forest"), false));
    assert_eq!(translated.description().as_deref(), Some(TRANSLATED_DESCRIPTION));
    assert_eq!(services.shakespeare_calls.len(), 1);
    assert_eq!(services.cache_writes.len(), 1);
}

#[test]
fn failed_translation_keeps_original_description_and_writes_nothing() {
    let mut services = Services::new(None, None);
    let translated = translate(&mut services, described(Some("cave"), false));
    assert_eq!(translated.description().as_deref(), Some(POKEMON_DESCRIPTION));
    assert_eq!(services.yoda_calls.len(), 1);
    assert!(services.shakespeare_calls.is_empty());
    assert!(services.cache_writes.is_empty());
}

#[test]
fn failed_cache_write_still_returns_translation() {
    let mut services = Services::new(Some("unused"), Some(TRANSLATED_DESCRIPTION));
    services.cache_writable = false;
    let translated = translate(&mut services, described(None, false));
    assert_eq!(translated.description().as_deref(), Some(TRANSLATED_DESCRIPTION));
    assert_eq!(
        services.cache_writes,
        vec![(POKEMON_NAME.to_string(), TRANSLATED_DESCRIPTION.to_string())]
    );
    assert!(services.cache.is_empty());
}

#[test]
fn second_translation_is_served_from_cache() {
    let mut services = Services::new(Some("unused"), Some(TRANSLATED_DESCRIPTION));
    let first = translate(&mut services, described(None, false));
    let second = translate(&mut services, described(None, false));
    assert_eq!(first.description(), second.description());
    assert_eq!(second.description().as_deref(), Some(TRANSLATED_DESCRIPTION));
    assert_eq!(services.shakespeare_calls.len(), 1);
    assert!(services.yoda_calls.is_empty());
    assert_eq!(services.cache_reads.len(), 2);
    assert_eq!(services.cache_writes.len(), 1);
}

#[test]
fn legendary_mewtwo_uses_the_alternate_style_only() {
    let mut services = Services::new(Some("Created by a scientist, it was"), Some("unused"));
    let mewtwo = Pokemon::new(
        Some("It was created by a scientist".to_string()),
        Some("rare".to_string()),
        true,
        "mewtwo".to_string(),
    );
    let translated = translate(&mut services, mewtwo);
    assert_eq!(services.shakespeare_calls.len(), 0);
    assert_eq!(services.yoda_calls, vec!["It was created by a scientist".to_string()]);
    assert_eq!(
        services.cache_writes,
        vec![("mewtwo".to_string(), "Created by a scientist, it was".to_string())]
    );
    assert_eq!(
        translated.description().as_deref(),
        Some("Created by a scientist, it was")
    );
    assert_eq!(translated.habitat().as_deref(), Some("rare"));
}

#[test]
fn translator_refuses_events_out_of_turn() {
    let translator = PokemonTranslator::new(described(None, false));
    assert!(translator.accepts(&Event::Start));
    assert!(!translator.accepts(&Event::CacheMiss));
    assert!(!translator.accepts(&Event::Translated("x".to_string())));
    let (translator, action) = translator.step(Event::Start);
    assert!(matches!(action, Action::ReadCache(ref n) if n == POKEMON_NAME));
    assert!(!translator.accepts(&Event::Start));
    assert!(translator.accepts(&Event::CacheError));
    assert!(!translator.is_finished());
}
