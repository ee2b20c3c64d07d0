//! Resolution of a playback item to the media file to download.
//!
//! A track is loaded and, when the user's country is known and the track is
//! restricted there, the first alternative track allowed there is used in
//! its place; the file found for the alternative is reported under the
//! requested item. An episode that is restricted in the user's country has
//! no media file. The host answers each [`ResolveAction`] with a
//! [`ResolveEvent`]: it loads tracks and episodes (through the cache
//! lookups), knows the country, and answers the questions about the items
//! it loaded.

use vstd::prelude::*;
use crate::item::{Error, ItemId, ItemIdType, MediaPath};

verus! {

/// Where a resolution stands.
pub enum Resolution {
    /// Waiting for the requested track to load.
    LoadingTrack,
    /// Track loaded; waiting for the user's country code.
    TrackCountry,
    /// Waiting to hear whether the track is restricted in this country.
    CheckingTrack(String),
    /// Waiting for an alternative track allowed in this country.
    FindingAlternative(String),
    /// Waiting for this alternative track to load.
    LoadingAlternative(ItemId),
    /// Waiting for the media file of this alternative track.
    AlternativePath(ItemId),
    /// Waiting for the media file of the requested track.
    TrackPath,
    /// Waiting for the requested episode to load.
    LoadingEpisode,
    /// Episode loaded; waiting for the user's country code.
    EpisodeCountry,
    /// Waiting to hear whether the episode is restricted in this country.
    CheckingEpisode(String),
    /// Waiting for the media file of the episode.
    EpisodePath,
    /// Finished.
    Done(Result<MediaPath, Error>),
}

/// The resolution of `item_id` to a media file at the preferred `bitrate`.
pub struct MediaPathResolver {
    pub item_id: ItemId,
    pub bitrate: usize,
    pub phase: Resolution,
}

/// What the host reports back.
pub enum ResolveEvent {
    /// An item finished loading (its metadata stays with the host).
    Loaded(Result<(), Error>),
    /// The user's country code, when it is known.
    CountryCode(Option<String>),
    /// Whether the item asked about is restricted in the country asked about.
    Restricted(bool),
    /// The first alternative of the track that is allowed in the country.
    Alternative(Option<ItemId>),
    /// The media file of the item asked about at the bitrate asked about.
    Path(Option<MediaPath>),
}

/// What the host is asked to do next.
pub enum ResolveAction {
    LoadTrack(ItemId),
    LoadEpisode(ItemId),
    GetCountryCode,
    CheckTrackRestricted(ItemId, String),
    FindAlternative(ItemId, String),
    TrackMediaPath(ItemId, usize),
    CheckEpisodeRestricted(ItemId, String),
    EpisodeMediaPath(ItemId, usize),
    Finished,
}

/// The media path found for an alternative track, presented as the path of
/// the requested item.
pub open spec fn for_item(p: MediaPath, item_id: ItemId) -> MediaPath {
    MediaPath { item_id, ..p }
}

/// The action that a resolution in this state waits on.
pub open spec fn awaited(r: MediaPathResolver) -> ResolveAction {
    match r.phase {
        Resolution::LoadingTrack => ResolveAction::LoadTrack(r.item_id),
        Resolution::TrackCountry => ResolveAction::GetCountryCode,
        Resolution::CheckingTrack(c) => ResolveAction::CheckTrackRestricted(r.item_id, c),
        Resolution::FindingAlternative(c) => ResolveAction::FindAlternative(r.item_id, c),
        Resolution::LoadingAlternative(a) => ResolveAction::LoadTrack(a),
        Resolution::AlternativePath(a) => ResolveAction::TrackMediaPath(a, r.bitrate),
        Resolution::TrackPath => ResolveAction::TrackMediaPath(r.item_id, r.bitrate),
        Resolution::LoadingEpisode => ResolveAction::LoadEpisode(r.item_id),
        Resolution::EpisodeCountry => ResolveAction::GetCountryCode,
        Resolution::CheckingEpisode(c) => ResolveAction::CheckEpisodeRestricted(r.item_id, c),
        Resolution::EpisodePath => ResolveAction::EpisodeMediaPath(r.item_id, r.bitrate),
        Resolution::Done(_) => ResolveAction::Finished,
    }
}

/// The phase after `e`; `None` when the phase does not wait on `e`.
pub open spec fn next_phase(r: MediaPathResolver, e: ResolveEvent) -> Option<Resolution> {
    match (r.phase, e) {
        (Resolution::LoadingTrack, ResolveEvent::Loaded(Err(err))) => Some(Resolution::Done(Err(err))),
        (Resolution::LoadingTrack, ResolveEvent::Loaded(Ok(_))) => Some(Resolution::TrackCountry),
        (Resolution::TrackCountry, ResolveEvent::CountryCode(Some(c))) => Some(
            Resolution::CheckingTrack(c),
        ),
        (Resolution::TrackCountry, ResolveEvent::CountryCode(None)) => Some(Resolution::TrackPath),
        (Resolution::CheckingTrack(c), ResolveEvent::Restricted(true)) => Some(
            Resolution::FindingAlternative(c),
        ),
        (Resolution::CheckingTrack(_), ResolveEvent::Restricted(false)) => Some(
            Resolution::TrackPath,
        ),
        (Resolution::FindingAlternative(_), ResolveEvent::Alternative(None)) => Some(
            Resolution::Done(Err(Error::MediaFileNotFound)),
        ),
        (Resolution::FindingAlternative(_), ResolveEvent::Alternative(Some(a))) => Some(
            Resolution::LoadingAlternative(a),
        ),
        (Resolution::LoadingAlternative(_), ResolveEvent::Loaded(Err(err))) => Some(
            Resolution::Done(Err(err)),
        ),
        (Resolution::LoadingAlternative(a), ResolveEvent::Loaded(Ok(_))) => Some(
            Resolution::AlternativePath(a),
        ),
        (Resolution::AlternativePath(_), ResolveEvent::Path(None)) => Some(
            Resolution::Done(Err(Error::MediaFileNotFound)),
        ),
        (Resolution::AlternativePath(_), ResolveEvent::Path(Some(p))) => Some(
            Resolution::Done(Ok(for_item(p, r.item_id))),
        ),
        (Resolution::TrackPath, ResolveEvent::Path(None)) => Some(
            Resolution::Done(Err(Error::MediaFileNotFound)),
        ),
        (Resolution::TrackPath, ResolveEvent::Path(Some(p))) => Some(Resolution::Done(Ok(p))),
        (Resolution::LoadingEpisode, ResolveEvent::Loaded(Err(err))) => Some(
            Resolution::Done(Err(err)),
        ),
        (Resolution::LoadingEpisode, ResolveEvent::Loaded(Ok(_))) => Some(
            Resolution::EpisodeCountry,
        ),
        (Resolution::EpisodeCountry, ResolveEvent::CountryCode(Some(c))) => Some(
            Resolution::CheckingEpisode(c),
        ),
        (Resolution::EpisodeCountry, ResolveEvent::CountryCode(None)) => Some(
            Resolution::EpisodePath,
        ),
        (Resolution::CheckingEpisode(_), ResolveEvent::Restricted(true)) => Some(
            Resolution::Done(Err(Error::MediaFileNotFound)),
        ),
        (Resolution::CheckingEpisode(_), ResolveEvent::Restricted(false)) => Some(
            Resolution::EpisodePath,
        ),
        (Resolution::EpisodePath, ResolveEvent::Path(None)) => Some(
            Resolution::Done(Err(Error::MediaFileNotFound)),
        ),
        (Resolution::EpisodePath, ResolveEvent::Path(Some(p))) => Some(Resolution::Done(Ok(p))),
        _ => None,
    }
}

/// The state after `e`; an event that the phase does not wait on is ignored.
pub open spec fn next(r: MediaPathResolver, e: ResolveEvent) -> MediaPathResolver {
    match next_phase(r, e) {
        Some(phase) => MediaPathResolver { phase, ..r },
        None => r,
    }
}

/// The state a resolution of `item_id` starts in.
pub open spec fn resolver_start(item_id: ItemId, bitrate: usize) -> MediaPathResolver {
    MediaPathResolver {
        item_id,
        bitrate,
        phase: if item_id.id_type == ItemIdType::Podcast {
            Resolution::LoadingEpisode
        } else {
            Resolution::LoadingTrack
        },
    }
}

fn load_media_path_from_track_or_alternative(item_id: ItemId, bitrate: usize) -> (r: (
    MediaPathResolver,
    ResolveAction,
))
    ensures
        r.0 == (MediaPathResolver { item_id, bitrate, phase: Resolution::LoadingTrack }),
        r.1 == awaited(r.0),
{
    (
        MediaPathResolver { item_id, bitrate, phase: Resolution::LoadingTrack },
        ResolveAction::LoadTrack(item_id),
    )
}

fn load_media_path_from_episode(item_id: ItemId, bitrate: usize) -> (r: (
    MediaPathResolver,
    ResolveAction,
))
    ensures
        r.0 == (MediaPathResolver { item_id, bitrate, phase: Resolution::LoadingEpisode }),
        r.1 == awaited(r.0),
{
    (
        MediaPathResolver { item_id, bitrate, phase: Resolution::LoadingEpisode },
        ResolveAction::LoadEpisode(item_id),
    )
}

/// Starts resolving `item_id` to a media file at the preferred `bitrate`:
/// tracks go through the track resolution, podcast episodes through the
/// episode resolution. Items of unknown kind are not supported.
pub fn load_media_path(item_id: ItemId, bitrate: usize) -> (r: (MediaPathResolver, ResolveAction))
    requires
        item_id.id_type != ItemIdType::Unknown,
    ensures
        r.0 == resolver_start(item_id, bitrate),
        r.1 == awaited(r.0),
{
    match item_id.id_type {
        ItemIdType::Podcast => load_media_path_from_episode(item_id, bitrate),
        _ => load_media_path_from_track_or_alternative(item_id, bitrate),
    }
}

impl MediaPathResolver {
    /// Takes in what the host reports and says what to do next.
    pub fn step(self, event: ResolveEvent) -> (r: (MediaPathResolver, ResolveAction))
        ensures
            r.0 == next(self, event),
            r.1 == awaited(r.0),
            self.phase is AlternativePath ==> match event {
                ResolveEvent::Path(Some(p)) => r.0.phase matches Resolution::Done(Ok(q))
                    && q.item_id == self.item_id && q.file_id == p.file_id && q.file_format
                    == p.file_format && q.duration_ms == p.duration_ms,
                _ => true,
            },
    {
        let item_id = self.item_id;
        let bitrate: usize = self.bitrate;
        let phase = match (self.phase, event) {
            (Resolution::LoadingTrack, ResolveEvent::Loaded(Err(err))) => Resolution::Done(Err(err)),
            (Resolution::LoadingTrack, ResolveEvent::Loaded(Ok(_))) => Resolution::TrackCountry,
            (Resolution::TrackCountry, ResolveEvent::CountryCode(Some(c))) => Resolution::CheckingTrack(c),
            (Resolution::TrackCountry, ResolveEvent::CountryCode(None)) => Resolution::TrackPath,
            (Resolution::CheckingTrack(c), ResolveEvent::Restricted(true)) => Resolution::FindingAlternative(c),
            (Resolution::CheckingTrack(_), ResolveEvent::Restricted(false)) => Resolution::TrackPath,
            (Resolution::FindingAlternative(_), ResolveEvent::Alternative(None)) => Resolution::Done(
                Err(Error::MediaFileNotFound),
            ),
            (Resolution::FindingAlternative(_), ResolveEvent::Alternative(Some(a))) => Resolution::LoadingAlternative(a),
            (Resolution::LoadingAlternative(_), ResolveEvent::Loaded(Err(err))) => Resolution::Done(Err(err)),
            (Resolution::LoadingAlternative(a), ResolveEvent::Loaded(Ok(_))) => Resolution::AlternativePath(a),
            (Resolution::AlternativePath(_), ResolveEvent::Path(None)) => Resolution::Done(
                Err(Error::MediaFileNotFound),
            ),
            (Resolution::AlternativePath(_), ResolveEvent::Path(Some(p))) => Resolution::Done(
                Ok(MediaPath { item_id, ..p }),
            ),
            (Resolution::TrackPath, ResolveEvent::Path(None)) => Resolution::Done(
                Err(Error::MediaFileNotFound),
            ),
            (Resolution::TrackPath, ResolveEvent::Path(Some(p))) => Resolution::Done(Ok(p)),
            (Resolution::LoadingEpisode, ResolveEvent::Loaded(Err(err))) => Resolution::Done(Err(err)),
            (Resolution::LoadingEpisode, ResolveEvent::Loaded(Ok(_))) => Resolution::EpisodeCountry,
            (Resolution::EpisodeCountry, ResolveEvent::CountryCode(Some(c))) => Resolution::CheckingEpisode(c),
            (Resolution::EpisodeCountry, ResolveEvent::CountryCode(None)) => Resolution::EpisodePath,
            (Resolution::CheckingEpisode(_), ResolveEvent::Restricted(true)) => Resolution::Done(
                Err(Error::MediaFileNotFound),
            ),
            (Resolution::CheckingEpisode(_), ResolveEvent::Restricted(false)) => Resolution::EpisodePath,
            (Resolution::EpisodePath, ResolveEvent::Path(None)) => Resolution::Done(
                Err(Error::MediaFileNotFound),
            ),
            (Resolution::EpisodePath, ResolveEvent::Path(Some(p))) => Resolution::Done(Ok(p)),
            (phase, _) => phase,
        };
        let action = match &phase {
            Resolution::LoadingTrack => ResolveAction::LoadTrack(item_id),
            Resolution::TrackCountry => ResolveAction::GetCountryCode,
            Resolution::CheckingTrack(c) => ResolveAction::CheckTrackRestricted(item_id, c.clone()),
            Resolution::FindingAlternative(c) => ResolveAction::FindAlternative(item_id, c.clone()),
            Resolution::LoadingAlternative(a) => ResolveAction::LoadTrack(*a),
            Resolution::AlternativePath(a) => ResolveAction::TrackMediaPath(*a, bitrate),
            Resolution::TrackPath => ResolveAction::TrackMediaPath(item_id, bitrate),
            Resolution::LoadingEpisode => ResolveAction::LoadEpisode(item_id),
            Resolution::EpisodeCountry => ResolveAction::GetCountryCode,
            Resolution::CheckingEpisode(c) => ResolveAction::CheckEpisodeRestricted(item_id, c.clone()),
            Resolution::EpisodePath => ResolveAction::EpisodeMediaPath(item_id, bitrate),
            Resolution::Done(_) => ResolveAction::Finished,
        };
        (MediaPathResolver { item_id, bitrate, phase }, action)
    }

    /// The media path, or the failure, once the resolution has finished.
    pub fn into_result(self) -> (r: Option<Result<MediaPath, Error>>)
        ensures
            match self.phase {
                Resolution::Done(res) => r == Some(res),
                _ => r is None,
            },
    {
        match self.phase {
            Resolution::Done(res) => Some(res),
            _ => None,
        }
    }
}

/// What the host knows: how loading each track and episode ends, the user's
/// country code, and the answers about the items (restriction in a country,
/// first allowed alternative, media file at a bitrate).
pub struct Catalog {
    pub load_track: spec_fn(ItemId) -> Result<(), Error>,
    pub load_episode: spec_fn(ItemId) -> Result<(), Error>,
    pub country: Option<String>,
    pub track_restricted: spec_fn(ItemId, Seq<char>) -> bool,
    pub alternative: spec_fn(ItemId, Seq<char>) -> Option<ItemId>,
    pub track_path: spec_fn(ItemId, usize) -> Option<MediaPath>,
    pub episode_restricted: spec_fn(ItemId, Seq<char>) -> bool,
    pub episode_path: spec_fn(ItemId, usize) -> Option<MediaPath>,
}

/// The event with which a host knowing `cat` answers `a`.
pub open spec fn catalog_answer(cat: Catalog, a: ResolveAction) -> ResolveEvent {
    match a {
        ResolveAction::LoadTrack(i) => ResolveEvent::Loaded((cat.load_track)(i)),
        ResolveAction::LoadEpisode(i) => ResolveEvent::Loaded((cat.load_episode)(i)),
        ResolveAction::GetCountryCode => ResolveEvent::CountryCode(cat.country),
        ResolveAction::CheckTrackRestricted(i, c) => ResolveEvent::Restricted(
            (cat.track_restricted)(i, c@),
        ),
        ResolveAction::FindAlternative(i, c) => ResolveEvent::Alternative((cat.alternative)(i, c@)),
        ResolveAction::TrackMediaPath(i, b) => ResolveEvent::Path((cat.track_path)(i, b)),
        ResolveAction::CheckEpisodeRestricted(i, c) => ResolveEvent::Restricted(
            (cat.episode_restricted)(i, c@),
        ),
        ResolveAction::EpisodeMediaPath(i, b) => ResolveEvent::Path((cat.episode_path)(i, b)),
        ResolveAction::Finished => ResolveEvent::Loaded(Ok(())),
    }
}

/// The state after `fuel` rounds in which the host answers from `cat`.
pub open spec fn drive(r: MediaPathResolver, cat: Catalog, fuel: nat) -> MediaPathResolver
    decreases fuel,
{
    if fuel == 0 {
        r
    } else {
        drive(next(r, catalog_answer(cat, awaited(r))), cat, (fuel - 1) as nat)
    }
}

/// The media path of a track: when the user's country is known and the track
/// is restricted there, the first alternative allowed there stands in for it
/// (its file, reported under the requested item); a missing alternative or
/// file is `MediaFileNotFound`; a failure to load is passed on.
pub open spec fn track_media_path(cat: Catalog, item_id: ItemId, bitrate: usize) -> Result<MediaPath, Error> {
    match (cat.load_track)(item_id) {
        Err(e) => Err(e),
        Ok(_) => match cat.country {
            Some(c) if (cat.track_restricted)(item_id, c@) => match (cat.alternative)(item_id, c@) {
                None => Err(Error::MediaFileNotFound),
                Some(alt) => match (cat.load_track)(alt) {
                    Err(e) => Err(e),
                    Ok(_) => match (cat.track_path)(alt, bitrate) {
                        None => Err(Error::MediaFileNotFound),
                        Some(p) => Ok(for_item(p, item_id)),
                    },
                },
            },
            _ => match (cat.track_path)(item_id, bitrate) {
                None => Err(Error::MediaFileNotFound),
                Some(p) => Ok(p),
            },
        },
    }
}

/// The media path of an episode: none when it is restricted in the user's
/// country (there is no alternative), else its file at the bitrate.
pub open spec fn episode_media_path(cat: Catalog, item_id: ItemId, bitrate: usize) -> Result<MediaPath, Error> {
    match (cat.load_episode)(item_id) {
        Err(e) => Err(e),
        Ok(_) => match cat.country {
            Some(c) if (cat.episode_restricted)(item_id, c@) => Err(Error::MediaFileNotFound),
            _ => match (cat.episode_path)(item_id, bitrate) {
                None => Err(Error::MediaFileNotFound),
                Some(p) => Ok(p),
            },
        },
    }
}

/// Whatever the host knows, a resolution started by `load_media_path` ends,
/// within six rounds, with the media path that the track or episode rules
/// give for the requested item.
pub proof fn lemma_resolution_result(item_id: ItemId, bitrate: usize, cat: Catalog)
    requires
        item_id.id_type != ItemIdType::Unknown,
    ensures
        drive(resolver_start(item_id, bitrate), cat, 6).phase == Resolution::Done(
            if item_id.id_type == ItemIdType::Podcast {
                episode_media_path(cat, item_id, bitrate)
            } else {
                track_media_path(cat, item_id, bitrate)
            },
        ),
{
    reveal_with_fuel(drive, 7);
}


/// When the alternative of a restricted track has a media file, the
/// resolution ends with that very file (same file id, format and length),
/// reported under the requested item.
pub proof fn lemma_alternative_file_kept(r: MediaPathResolver, p: MediaPath)
    requires
        r.phase is AlternativePath,
    ensures
        next(r, ResolveEvent::Path(Some(p))).phase matches Resolution::Done(Ok(q)) && q.item_id
            == r.item_id && q.file_id == p.file_id && q.file_format == p.file_format
            && q.duration_ms == p.duration_ms,
{
}

/// For a track that loads, is restricted in the user's known country, and
/// whose first allowed alternative loads and has media file `p`, the whole
/// resolution ends with `p`'s file, format and length under the requested
/// item.
pub proof fn lemma_restricted_track_uses_alternative_file(
    item_id: ItemId,
    bitrate: usize,
    cat: Catalog,
    alt: ItemId,
    p: MediaPath,
)
    requires
        item_id.id_type == ItemIdType::Track,
        (cat.load_track)(item_id) is Ok,
        cat.country matches Some(c) && (cat.track_restricted)(item_id, c@) && (cat.alternative)(
            item_id,
            c@,
        ) == Some(alt),
        (cat.load_track)(alt) is Ok,
        (cat.track_path)(alt, bitrate) == Some(p),
    ensures
        drive(resolver_start(item_id, bitrate), cat, 6).phase matches Resolution::Done(Ok(q))
            && q.item_id == item_id && q.file_id == p.file_id && q.file_format == p.file_format
            && q.duration_ms == p.duration_ms,
{
    lemma_resolution_result(item_id, bitrate, cat);
}


/// The outcomes of resolving a track, case by case: a track that fails to
/// load gives that failure; when the country is unknown or the track is not
/// restricted there, the track's own file is used (none: `MediaFileNotFound`);
/// a restricted track without an allowed alternative has no file. A
/// restricted episode has no file; an episode that is not restricted (or
/// whose country is unknown) uses its own file.
pub proof fn lemma_resolution_cases(item_id: ItemId, bitrate: usize, cat: Catalog)
    requires
        item_id.id_type != ItemIdType::Unknown,
    ensures
        ({
            let end = drive(resolver_start(item_id, bitrate), cat, 6).phase;
            let own_file = match (cat.track_path)(item_id, bitrate) {
                Some(p) => Ok(p),
                None => Err(Error::MediaFileNotFound),
            };
            let own_episode_file = match (cat.episode_path)(item_id, bitrate) {
                Some(p) => Ok(p),
                None => Err(Error::MediaFileNotFound),
            };
            &&& item_id.id_type == ItemIdType::Track ==> {
                &&& (cat.load_track)(item_id) matches Err(e) ==> end == Resolution::Done(Err(e))
                &&& ((cat.load_track)(item_id) is Ok && (cat.country is None || !(
                cat.track_restricted)(item_id, cat.country->Some_0@))) ==> end == Resolution::Done(
                    own_file,
                )
                &&& ((cat.load_track)(item_id) is Ok && cat.country is Some && (
                cat.track_restricted)(item_id, cat.country->Some_0@) && (cat.alternative)(
                    item_id,
                    cat.country->Some_0@,
                ) is None) ==> end == Resolution::Done(Err(Error::MediaFileNotFound))
            }
            &&& item_id.id_type == ItemIdType::Podcast ==> {
                &&& (cat.load_episode)(item_id) matches Err(e) ==> end == Resolution::Done(Err(e))
                &&& ((cat.load_episode)(item_id) is Ok && cat.country is Some && (
                cat.episode_restricted)(item_id, cat.country->Some_0@)) ==> end == Resolution::Done(
                    Err(Error::MediaFileNotFound),
                )
                &&& ((cat.load_episode)(item_id) is Ok && (cat.country is None || !(
                cat.episode_restricted)(item_id, cat.country->Some_0@))) ==> end
                    == Resolution::Done(own_episode_file)
            }
        }),
{
    lemma_resolution_result(item_id, bitrate, cat);
}

} // verus!
