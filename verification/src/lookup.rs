//! Cache-then-fetch lookups: a value is taken from the local cache when it
//! is there; otherwise it is fetched from the service and, when that
//! succeeds, written to the cache (a failure to write is only reported, it
//! does not change the answer).
//!
//! The host performs the actions a [`Lookup`] asks for and reports what
//! happened as a [`LookupEvent`].

use vstd::prelude::*;
use crate::item::{FileId, ItemId, MediaPath, Error};

verus! {

/// Where a lookup stands.
pub enum LookupPhase<T, F> {
    /// Waiting for the cache to answer.
    ReadingCache,
    /// Waiting for the service to answer.
    Fetching,
    /// Waiting for the fetched value to be written to the cache.
    Saving(T),
    /// Finished with this answer.
    Done(Result<T, F>),
}

/// A lookup of the value stored under `key`.
pub struct Lookup<K, T, F> {
    pub key: K,
    pub phase: LookupPhase<T, F>,
}

/// What the host reports back.
pub enum LookupEvent<T, F> {
    /// The cache answered (`None`: nothing stored under the key).
    CacheRead(Option<T>),
    /// The service answered.
    Fetched(Result<T, F>),
    /// The cache write finished (`false`: it failed).
    CacheWritten(bool),
}

/// What the host is asked to do next.
#[derive(Clone, Copy, Debug, PartialEq, Eq)]
pub enum LookupAction<K> {
    ReadCache(K),
    Fetch(K),
    /// Write the value that [`Lookup::value_to_save`] shows under the key.
    WriteCache(K),
    Finished,
}

/// The answer of a lookup: the cached value when there is one, else what the
/// service gave.
pub open spec fn cache_through<T, F>(cached: Option<T>, fetched: Result<T, F>) -> Result<T, F> {
    match cached {
        Some(v) => Ok(v),
        None => fetched,
    }
}

/// The action that a lookup in this state waits on.
pub open spec fn awaited<K, T, F>(l: Lookup<K, T, F>) -> LookupAction<K> {
    match l.phase {
        LookupPhase::ReadingCache => LookupAction::ReadCache(l.key),
        LookupPhase::Fetching => LookupAction::Fetch(l.key),
        LookupPhase::Saving(_) => LookupAction::WriteCache(l.key),
        LookupPhase::Done(_) => LookupAction::Finished,
    }
}

/// The state after `e`; an event that the phase does not wait on is ignored.
pub open spec fn next<K, T, F>(l: Lookup<K, T, F>, e: LookupEvent<T, F>) -> Lookup<K, T, F> {
    match (l.phase, e) {
        (LookupPhase::ReadingCache, LookupEvent::CacheRead(Some(v))) => Lookup {
            key: l.key,
            phase: LookupPhase::Done(Ok(v)),
        },
        (LookupPhase::ReadingCache, LookupEvent::CacheRead(None)) => Lookup {
            key: l.key,
            phase: LookupPhase::Fetching,
        },
        (LookupPhase::Fetching, LookupEvent::Fetched(Ok(v))) => Lookup {
            key: l.key,
            phase: LookupPhase::Saving(v),
        },
        (LookupPhase::Fetching, LookupEvent::Fetched(Err(f))) => Lookup {
            key: l.key,
            phase: LookupPhase::Done(Err(f)),
        },
        (LookupPhase::Saving(v), LookupEvent::CacheWritten(_)) => Lookup {
            key: l.key,
            phase: LookupPhase::Done(Ok(v)),
        },
        _ => l,
    }
}

impl<K: Copy, T, F> Lookup<K, T, F> {
    /// Starts a lookup of `key`: the cache is read first.
    pub fn new(key: K) -> (r: (Self, LookupAction<K>))
        ensures
            r.0.key == key,
            r.0.phase == LookupPhase::<T, F>::ReadingCache,
            r.1 == LookupAction::ReadCache(key),
    {
        (Lookup { key, phase: LookupPhase::ReadingCache }, LookupAction::ReadCache(key))
    }

    /// Takes in what the host reports and says what to do next.
    pub fn step(self, event: LookupEvent<T, F>) -> (r: (Self, LookupAction<K>))
        ensures
            r.0 == next(self, event),
            r.1 == awaited(r.0),
    {
        let key = self.key;
        let phase = match (self.phase, event) {
            (LookupPhase::ReadingCache, LookupEvent::CacheRead(Some(v))) => LookupPhase::Done(Ok(v)),
            (LookupPhase::ReadingCache, LookupEvent::CacheRead(None)) => LookupPhase::Fetching,
            (LookupPhase::Fetching, LookupEvent::Fetched(Ok(v))) => LookupPhase::Saving(v),
            (LookupPhase::Fetching, LookupEvent::Fetched(Err(f))) => LookupPhase::Done(Err(f)),
            (LookupPhase::Saving(v), LookupEvent::CacheWritten(_)) => LookupPhase::Done(Ok(v)),
            (phase, _) => phase,
        };
        let action = match &phase {
            LookupPhase::ReadingCache => LookupAction::ReadCache(key),
            LookupPhase::Fetching => LookupAction::Fetch(key),
            LookupPhase::Saving(_) => LookupAction::WriteCache(key),
            LookupPhase::Done(_) => LookupAction::Finished,
        };
        (Lookup { key, phase }, action)
    }

    /// The value to write to the cache, while the lookup waits on that write.
    pub fn value_to_save(&self) -> (r: Option<&T>)
        ensures
            match self.phase {
                LookupPhase::Saving(v) => r == Some(&v),
                _ => r is None,
            },
    {
        match &self.phase {
            LookupPhase::Saving(v) => Some(v),
            _ => None,
        }
    }

    /// The answer, once the lookup has finished.
    pub fn into_answer(self) -> (r: Option<Result<T, F>>)
        ensures
            match self.phase {
                LookupPhase::Done(a) => r == Some(a),
                _ => r is None,
            },
    {
        match self.phase {
            LookupPhase::Done(a) => Some(a),
            _ => None,
        }
    }
}

/// Starts loading the track `item_id` (its metadata, of type `T`).
pub fn load_track<T>(item_id: ItemId) -> (r: (Lookup<ItemId, T, Error>, LookupAction<ItemId>))
    ensures
        r.0.key == item_id,
        r.0.phase == LookupPhase::<T, Error>::ReadingCache,
        r.1 == LookupAction::ReadCache(item_id),
{
    Lookup::new(item_id)
}

/// Starts loading the podcast episode `item_id` (its metadata, of type `T`).
pub fn load_episode<T>(item_id: ItemId) -> (r: (Lookup<ItemId, T, Error>, LookupAction<ItemId>))
    ensures
        r.0.key == item_id,
        r.0.phase == LookupPhase::<T, Error>::ReadingCache,
        r.1 == LookupAction::ReadCache(item_id),
{
    Lookup::new(item_id)
}

/// Starts loading the decryption key of the file that `path` names: the key
/// is stored and fetched under the item and the file.
pub fn load_audio_key<T>(path: &MediaPath) -> (r: (
    Lookup<(ItemId, FileId), T, Error>,
    LookupAction<(ItemId, FileId)>,
))
    ensures
        r.0.key == (path.item_id, path.file_id),
        r.0.phase == LookupPhase::<T, Error>::ReadingCache,
        r.1 == LookupAction::ReadCache((path.item_id, path.file_id)),
{
    Lookup::new((path.item_id, path.file_id))
}

/// Starts looking up the user's country code. The service's answer is
/// `Err(())` when there is no connected session or it knows no country.
pub fn get_country_code() -> (r: (Lookup<(), String, ()>, LookupAction<()>))
    ensures
        r.0.phase == LookupPhase::<String, ()>::ReadingCache,
        r.1 == LookupAction::ReadCache(()),
{
    Lookup::new(())
}

/// The country code a finished country lookup gives: none when the service
/// could not tell.
pub fn country_code_answer(answer: Result<String, ()>) -> (r: Option<String>)
    ensures
        match answer {
            Ok(c) => r == Some(c),
            Err(_) => r is None,
        },
{
    match answer {
        Ok(c) => Some(c),
        Err(_) => None,
    }
}

/// The event that answers `a` when the cache holds `cached`, the service
/// gives `fetched` and a cache write succeeds iff `written`.
pub open spec fn lookup_answer<K, T, F>(
    a: LookupAction<K>,
    cached: Option<T>,
    fetched: Result<T, F>,
    written: bool,
) -> LookupEvent<T, F> {
    match a {
        LookupAction::ReadCache(_) => LookupEvent::CacheRead(cached),
        LookupAction::Fetch(_) => LookupEvent::Fetched(fetched),
        _ => LookupEvent::CacheWritten(written),
    }
}

/// The state after `fuel` rounds of answering what the lookup waits on.
pub open spec fn drive<K, T, F>(
    l: Lookup<K, T, F>,
    cached: Option<T>,
    fetched: Result<T, F>,
    written: bool,
    fuel: nat,
) -> Lookup<K, T, F>
    decreases fuel,
{
    if fuel == 0 {
        l
    } else {
        drive(
            next(l, lookup_answer(awaited(l), cached, fetched, written)),
            cached,
            fetched,
            written,
            (fuel - 1) as nat,
        )
    }
}

/// The actions issued in `fuel` rounds, in order.
pub open spec fn drive_actions<K, T, F>(
    l: Lookup<K, T, F>,
    cached: Option<T>,
    fetched: Result<T, F>,
    written: bool,
    fuel: nat,
) -> Seq<LookupAction<K>>
    decreases fuel,
{
    if fuel == 0 {
        seq![]
    } else {
        seq![awaited(l)] + drive_actions(
            next(l, lookup_answer(awaited(l), cached, fetched, written)),
            cached,
            fetched,
            written,
            (fuel - 1) as nat,
        )
    }
}

/// A lookup answers from the cache when the cache holds the value and then
/// never asks the service; otherwise it answers what the service gave, and
/// writes that value (and only that one) to the cache exactly when the
/// service gave one. Whether the cache write succeeds does not change the
/// answer. Three rounds always suffice.
pub proof fn lemma_cache_through<K, T, F>(key: K, cached: Option<T>, fetched: Result<T, F>, written: bool)
    ensures
        ({
            let start = Lookup::<K, T, F> { key, phase: LookupPhase::ReadingCache };
            &&& drive(start, cached, fetched, written, 3).phase == LookupPhase::Done(
                cache_through(cached, fetched),
            )
            &&& (cached matches Some(v) ==> drive(start, cached, fetched, written, 3).phase
                == LookupPhase::Done(Ok::<T, F>(v)))
            &&& (cached is None ==> drive(start, cached, fetched, written, 3).phase
                == LookupPhase::Done(fetched))
            &&& (drive_actions(start, cached, fetched, written, 3).contains(LookupAction::Fetch(key))
                <==> cached is None)
            &&& (drive_actions(start, cached, fetched, written, 3).contains(
                LookupAction::WriteCache(key),
            ) <==> (cached is None && fetched is Ok))
            &&& (cached is None && fetched is Ok) ==> drive(
                start,
                cached,
                fetched,
                written,
                2,
            ).phase == LookupPhase::<T, F>::Saving(fetched->Ok_0)
        }),
{
    let start = Lookup::<K, T, F> { key, phase: LookupPhase::ReadingCache };
    reveal_with_fuel(drive, 4);
    reveal_with_fuel(drive_actions, 4);
    let acts = drive_actions(start, cached, fetched, written, 3);
    match cached {
        Some(v) => {
            assert(acts =~= seq![
                LookupAction::ReadCache(key),
                LookupAction::Finished,
                LookupAction::Finished,
            ]);
            assert(!acts.contains(LookupAction::Fetch(key)));
            assert(!acts.contains(LookupAction::WriteCache(key)));
        },
        None => match fetched {
            Ok(v) => {
                assert(acts =~= seq![
                    LookupAction::ReadCache(key),
                    LookupAction::Fetch(key),
                    LookupAction::WriteCache(key),
                ]);
                assert(acts[1] == LookupAction::<K>::Fetch(key));
                assert(acts[2] == LookupAction::<K>::WriteCache(key));
            },
            Err(f) => {
                assert(acts =~= seq![
                    LookupAction::ReadCache(key),
                    LookupAction::Fetch(key),
                    LookupAction::Finished,
                ]);
                assert(acts[1] == LookupAction::<K>::Fetch(key));
                assert(!acts.contains(LookupAction::WriteCache(key)));
            },
        },
    }
}

/// A lookup that misses the cache writes the fetched value to the cache and
/// answers it; a later lookup of the same key to which the cache gives that
/// value back answers the same value without asking the service, whatever
/// the service would have said. (That the cache keeps what was written is
/// the cache's own property; the later lookup is given what it holds.)
pub proof fn lemma_saved_value_read_back<K, T, F>(
    key: K,
    value: T,
    written: bool,
    later_fetched: Result<T, F>,
    later_written: bool,
)
    ensures
        ({
            let start = Lookup::<K, T, F> { key, phase: LookupPhase::ReadingCache };
            &&& drive(start, None, Ok::<T, F>(value), written, 3).phase == LookupPhase::Done(
                Ok::<T, F>(value),
            )
            &&& drive_actions(start, None, Ok::<T, F>(value), written, 3).contains(
                LookupAction::WriteCache(key),
            )
            &&& drive(start, Some(value), later_fetched, later_written, 3).phase
                == LookupPhase::Done(Ok::<T, F>(value))
            &&& !drive_actions(start, Some(value), later_fetched, later_written, 3).contains(
                LookupAction::Fetch(key),
            )
        }),
{
    lemma_cache_through::<K, T, F>(key, None, Ok(value), written);
    lemma_cache_through::<K, T, F>(key, Some(value), later_fetched, later_written);
}

} // verus!
