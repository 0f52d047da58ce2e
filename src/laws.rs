use vstd::prelude::*;
use crate::pokemon::PokemonView;
use crate::translator::{next, translation_request, ActionView, EventView, StageView};

verus! {

/// Model of the services that a translation talks to.
pub struct Services {
    /// What the cache holds, by species name.
    pub cache: Map<Seq<char>, Seq<char>>,
    /// Whether cache reads succeed.
    pub cache_readable: bool,
    /// Whether cache writes succeed.
    pub cache_writable: bool,
    /// The alternate-style translator; `None` where it fails.
    pub yoda: spec_fn(Seq<char>) -> Option<Seq<char>>,
    /// The default-style translator; `None` where it fails.
    pub shakespeare: spec_fn(Seq<char>) -> Option<Seq<char>>,
}

impl Services {
    /// The outcome of performing `a`.
    pub open spec fn outcome(self, a: ActionView) -> EventView {
        match a {
            ActionView::ReadCache(n) => if !self.cache_readable {
                EventView::CacheError
            } else if self.cache.contains_key(n) {
                EventView::CacheHit(self.cache[n])
            } else {
                EventView::CacheMiss
            },
            ActionView::TranslateToYoda(t) => match (self.yoda)(t) {
                Some(r) => EventView::Translated(r),
                None => EventView::TranslationFailed,
            },
            ActionView::TranslateToShakespeare(t) => match (self.shakespeare)(t) {
                Some(r) => EventView::Translated(r),
                None => EventView::TranslationFailed,
            },
            ActionView::WriteCache(_, _) => if self.cache_writable {
                EventView::CacheWritten
            } else {
                EventView::CacheWriteFailed
            },
            ActionView::Reply(_) => EventView::Start,
        }
    }

    /// The services after performing `a`: a successful write replaces the
    /// entry of the name (last write wins).
    pub open spec fn after(self, a: ActionView) -> Services {
        match a {
            ActionView::WriteCache(n, t) => if self.cache_writable {
                Services { cache: self.cache.insert(n, t), ..self }
            } else {
                self
            },
            _ => self,
        }
    }

    /// Whether a read of `name` finds nothing, the cache being empty there or
    /// unreadable.
    pub open spec fn misses(self, name: Seq<char>) -> bool {
        !self.cache_readable || !self.cache.contains_key(name)
    }

    /// What the translator chosen for `p` makes of `description`.
    pub open spec fn translation_of(self, p: PokemonView, description: Seq<char>) -> Option<
        Seq<char>,
    > {
        if p.requires_alternate_style() {
            (self.yoda)(description)
        } else {
            (self.shakespeare)(description)
        }
    }
}

/// The actions issued when the translation in stage `s` is handed `e` and then
/// the outcome of each of its requests against `w`, at most `fuel` of them,
/// together with the services afterwards.
pub open spec fn run(s: StageView, e: EventView, w: Services, fuel: nat) -> (
    Seq<ActionView>,
    Services,
)
    decreases fuel,
{
    match next(s, e) {
        None => (Seq::empty(), w),
        Some((s2, a)) => if a is Reply || fuel == 0 {
            (seq![a], w)
        } else {
            let (rest, w2) = run(s2, w.outcome(a), w.after(a), (fuel - 1) as nat);
            (seq![a] + rest, w2)
        },
    }
}

/// One whole translation of `p` against `w`: every action issued, the reply
/// last, and the services afterwards. It issues at most three requests.
pub open spec fn translation(p: PokemonView, w: Services) -> (Seq<ActionView>, Services) {
    run(StageView::Ready(p), EventView::Start, w, 3)
}

/// How many actions of `trace` satisfy `f`.
pub open spec fn count(trace: Seq<ActionView>, f: spec_fn(ActionView) -> bool) -> nat
    decreases trace.len(),
{
    if trace.len() == 0 {
        0
    } else {
        count(trace.drop_first(), f) + if f(trace[0]) {
            1nat
        } else {
            0nat
        }
    }
}

pub open spec fn cache_reads(trace: Seq<ActionView>) -> nat {
    count(trace, |a: ActionView| a is ReadCache)
}

pub open spec fn cache_writes(trace: Seq<ActionView>) -> nat {
    count(trace, |a: ActionView| a is WriteCache)
}

pub open spec fn yoda_calls(trace: Seq<ActionView>) -> nat {
    count(trace, |a: ActionView| a is TranslateToYoda)
}

pub open spec fn shakespeare_calls(trace: Seq<ActionView>) -> nat {
    count(trace, |a: ActionView| a is TranslateToShakespeare)
}

proof fn lemma_count_cons(a: ActionView, rest: Seq<ActionView>, f: spec_fn(ActionView) -> bool)
    ensures
        count(seq![a] + rest, f) == count(rest, f) + if f(a) {
            1nat
        } else {
            0nat
        },
{
    assert((seq![a] + rest).drop_first() =~= rest);
}

proof fn lemma_count_one(a: ActionView, f: spec_fn(ActionView) -> bool)
    ensures
        count(seq![a], f) == if f(a) {
            1nat
        } else {
            0nat
        },
{
    lemma_count_cons(a, Seq::empty(), f);
    assert(seq![a] + Seq::<ActionView>::empty() =~= seq![a]);
}

proof fn lemma_count_three(
    a: ActionView,
    b: ActionView,
    c: ActionView,
    f: spec_fn(ActionView) -> bool,
)
    ensures
        count(seq![a, b, c], f) == count(seq![a], f) + count(seq![b], f) + count(seq![c], f),
{
    assert(seq![a, b, c] =~= seq![a] + (seq![b] + seq![c]));
    lemma_count_cons(a, seq![b] + seq![c], f);
    lemma_count_cons(b, seq![c], f);
    lemma_count_one(a, f);
    lemma_count_one(b, f);
}

proof fn lemma_count_four(
    a: ActionView,
    b: ActionView,
    c: ActionView,
    d: ActionView,
    f: spec_fn(ActionView) -> bool,
)
    ensures
        count(seq![a, b, c, d], f) == count(seq![a], f) + count(seq![b], f) + count(seq![c], f)
            + count(seq![d], f),
{
    assert(seq![a, b, c, d] =~= seq![a] + seq![b, c, d]);
    lemma_count_cons(a, seq![b, c, d], f);
    lemma_count_one(a, f);
    lemma_count_three(b, c, d, f);
}

/// A species without description is answered as it is, and neither the cache
/// nor a translator is asked anything.
pub proof fn law_no_description_no_requests(p: PokemonView, w: Services)
    requires
        p.description is None,
    ensures
        translation(p, w) == (seq![ActionView::Reply(p)], w),
        cache_reads(translation(p, w).0) == 0,
        cache_writes(translation(p, w).0) == 0,
        yoda_calls(translation(p, w).0) == 0,
        shakespeare_calls(translation(p, w).0) == 0,
{
    reveal_with_fuel(run, 2);
    lemma_count_one(ActionView::Reply(p), |a: ActionView| a is ReadCache);
    lemma_count_one(ActionView::Reply(p), |a: ActionView| a is WriteCache);
    lemma_count_one(ActionView::Reply(p), |a: ActionView| a is TranslateToYoda);
    lemma_count_one(ActionView::Reply(p), |a: ActionView| a is TranslateToShakespeare);
}

/// A species with a description whose name the cache holds is answered with
/// the cached text as its description; no translator is asked and nothing is
/// written.
pub proof fn law_cache_hit_is_the_answer(p: PokemonView, w: Services)
    requires
        p.description is Some,
        !w.misses(p.name),
    ensures
        translation(p, w) == (
            seq![
                ActionView::ReadCache(p.name),
                ActionView::Reply(p.with_description(w.cache[p.name])),
            ],
            w,
        ),
        yoda_calls(translation(p, w).0) == 0,
        shakespeare_calls(translation(p, w).0) == 0,
        cache_writes(translation(p, w).0) == 0,
{
    let d = p.description->0;
    let r = ActionView::Reply(p.with_description(w.cache[p.name]));
    assert(run(StageView::AwaitingCache(p, d), EventView::CacheHit(w.cache[p.name]), w, 2) == (
    seq![r], w));
    assert(translation(p, w) == (seq![ActionView::ReadCache(p.name)] + seq![r], w));
    assert(seq![ActionView::ReadCache(p.name)] + seq![r] =~= seq![ActionView::ReadCache(p.name), r]);
    lemma_count_one(r, |a: ActionView| a is TranslateToYoda);
    lemma_count_one(r, |a: ActionView| a is TranslateToShakespeare);
    lemma_count_one(r, |a: ActionView| a is WriteCache);
    lemma_count_cons(ActionView::ReadCache(p.name), seq![r], |a: ActionView| a is TranslateToYoda);
    lemma_count_cons(ActionView::ReadCache(p.name), seq![r], |a: ActionView| a is TranslateToShakespeare);
    lemma_count_cons(ActionView::ReadCache(p.name), seq![r], |a: ActionView| a is WriteCache);
}

/// The trace of a translation that finds nothing in the cache.
proof fn lemma_miss_trace(p: PokemonView, w: Services)
    requires
        p.description is Some,
        w.misses(p.name),
    ensures
        ({
            let d = p.description->0;
            let n = p.name;
            let req = translation_request(p, d);
            match w.translation_of(p, d) {
                None => translation(p, w) == (
                    seq![ActionView::ReadCache(n), req, ActionView::Reply(p)],
                    w,
                ),
                Some(t) => translation(p, w) == (
                    seq![
                        ActionView::ReadCache(n),
                        req,
                        ActionView::WriteCache(n, t),
                        ActionView::Reply(p.with_description(t)),
                    ],
                    w.after(ActionView::WriteCache(n, t)),
                ),
            }
        }),
{
    let d = p.description->0;
    let n = p.name;
    let req = translation_request(p, d);
    let read = ActionView::ReadCache(n);
    let e = w.outcome(read);
    assert(e is CacheMiss || e is CacheError);
    assert(next(StageView::AwaitingCache(p, d), e) == Some((StageView::AwaitingTranslation(p), req)));
    match w.translation_of(p, d) {
        None => {
            let r = ActionView::Reply(p);
            assert(w.outcome(req) == EventView::TranslationFailed);
            assert(run(StageView::AwaitingTranslation(p), w.outcome(req), w.after(req), 1) == (
            seq![r], w));
            assert(run(StageView::AwaitingCache(p, d), e, w, 2) == (seq![req] + seq![r], w));
            assert(translation(p, w) == (seq![read] + (seq![req] + seq![r]), w));
            assert(seq![read] + (seq![req] + seq![r]) =~= seq![read, req, r]);
        },
        Some(t) => {
            let write = ActionView::WriteCache(n, t);
            let r = ActionView::Reply(p.with_description(t));
            let w2 = w.after(write);
            assert(w.outcome(req) == EventView::Translated(t));
            assert(run(StageView::AwaitingCacheWrite(p, t), w.outcome(write), w2, 0) == (
            seq![r], w2));
            assert(run(StageView::AwaitingTranslation(p), w.outcome(req), w.after(req), 1) == (
            seq![write] + seq![r], w2));
            assert(run(StageView::AwaitingCache(p, d), e, w, 2) == (
            seq![req] + (seq![write] + seq![r]), w2));
            assert(translation(p, w) == (seq![read] + (seq![req] + (seq![write] + seq![r])), w2));
            assert(seq![read] + (seq![req] + (seq![write] + seq![r])) =~= seq![read, req, write, r]);
        },
    }
}

/// When the cache has nothing for a described species, exactly one translator
/// is asked: the alternate-style one for a cave-dwelling or legendary species,
/// the default-style one otherwise; the other is never asked.
pub proof fn law_one_translator_by_style(p: PokemonView, w: Services)
    requires
        p.description is Some,
        w.misses(p.name),
    ensures
        p.requires_alternate_style() ==> yoda_calls(translation(p, w).0) == 1
            && shakespeare_calls(translation(p, w).0) == 0,
        !p.requires_alternate_style() ==> shakespeare_calls(translation(p, w).0) == 1
            && yoda_calls(translation(p, w).0) == 0,
{
    lemma_miss_trace(p, w);
    let d = p.description->0;
    let n = p.name;
    let req = translation_request(p, d);
    let fy = |a: ActionView| a is TranslateToYoda;
    let fs = |a: ActionView| a is TranslateToShakespeare;
    lemma_count_one(ActionView::ReadCache(n), fy);
    lemma_count_one(ActionView::ReadCache(n), fs);
    lemma_count_one(req, fy);
    lemma_count_one(req, fs);
    match w.translation_of(p, d) {
        None => {
            lemma_count_one(ActionView::Reply(p), fy);
            lemma_count_one(ActionView::Reply(p), fs);
            lemma_count_three(ActionView::ReadCache(n), req, ActionView::Reply(p), fy);
            lemma_count_three(ActionView::ReadCache(n), req, ActionView::Reply(p), fs);
        },
        Some(t) => {
            let write = ActionView::WriteCache(n, t);
            let r = ActionView::Reply(p.with_description(t));
            lemma_count_one(write, fy);
            lemma_count_one(write, fs);
            lemma_count_one(r, fy);
            lemma_count_one(r, fs);
            lemma_count_four(ActionView::ReadCache(n), req, write, r, fy);
            lemma_count_four(ActionView::ReadCache(n), req, write, r, fs);
        },
    }
}

/// When the chosen translator fails, the answer is the record with its
/// original description, and nothing is written to the cache.
pub proof fn law_failed_translation_keeps_original(p: PokemonView, w: Services)
    requires
        p.description is Some,
        w.misses(p.name),
        w.translation_of(p, p.description->0) is None,
    ensures
        translation(p, w) == (
            seq![
                ActionView::ReadCache(p.name),
                translation_request(p, p.description->0),
                ActionView::Reply(p),
            ],
            w,
        ),
        cache_writes(translation(p, w).0) == 0,
{
    lemma_miss_trace(p, w);
    let f = |a: ActionView| a is WriteCache;
    let req = translation_request(p, p.description->0);
    lemma_count_one(ActionView::ReadCache(p.name), f);
    lemma_count_one(req, f);
    lemma_count_one(ActionView::Reply(p), f);
    lemma_count_three(ActionView::ReadCache(p.name), req, ActionView::Reply(p), f);
}

/// When the chosen translator returns a text, that text is written to the
/// cache under the species name, and the answer carries it as description
/// whether the write succeeds or fails; a successful write replaces the entry.
pub proof fn law_translation_is_stored_and_returned(p: PokemonView, w: Services)
    requires
        p.description is Some,
        w.misses(p.name),
        w.translation_of(p, p.description->0) is Some,
    ensures
        ({
            let t = w.translation_of(p, p.description->0)->0;
            &&& translation(p, w).0 == seq![
                ActionView::ReadCache(p.name),
                translation_request(p, p.description->0),
                ActionView::WriteCache(p.name, t),
                ActionView::Reply(p.with_description(t)),
            ]
            &&& cache_writes(translation(p, w).0) == 1
            &&& w.cache_writable ==> translation(p, w).1.cache == w.cache.insert(p.name, t)
            &&& !w.cache_writable ==> translation(p, w).1 == w
        }),
{
    lemma_miss_trace(p, w);
    let t = w.translation_of(p, p.description->0)->0;
    let f = |a: ActionView| a is WriteCache;
    let req = translation_request(p, p.description->0);
    let write = ActionView::WriteCache(p.name, t);
    let r = ActionView::Reply(p.with_description(t));
    lemma_count_one(ActionView::ReadCache(p.name), f);
    lemma_count_one(req, f);
    lemma_count_one(write, f);
    lemma_count_one(r, f);
    lemma_count_four(ActionView::ReadCache(p.name), req, write, r, f);
}

/// With a cache that reads and writes, translating the same record twice in
/// sequence gives the same answer both times, and the second translation asks
/// no translator. Left out: a described species that the cache misses and
/// whose chosen translator fails, which stores nothing for the second call.
pub proof fn law_second_translation_hits_cache(p: PokemonView, w: Services)
    requires
        w.cache_readable,
        w.cache_writable,
        !(p.description is Some && w.misses(p.name) && w.translation_of(
            p,
            p.description->0,
        ) is None),
    ensures
        ({
            let (first, w1) = translation(p, w);
            let second = translation(p, w1).0;
            &&& first.last() == second.last()
            &&& yoda_calls(second) == 0
            &&& shakespeare_calls(second) == 0
        }),
{
    if p.description is None {
        law_no_description_no_requests(p, w);
        law_no_description_no_requests(p, w);
    } else if !w.misses(p.name) {
        law_cache_hit_is_the_answer(p, w);
    } else {
        lemma_miss_trace(p, w);
        let t = w.translation_of(p, p.description->0)->0;
        let w1 = translation(p, w).1;
        assert(w1.cache == w.cache.insert(p.name, t));
        law_cache_hit_is_the_answer(p, w1);
    }
}

} // verus!
