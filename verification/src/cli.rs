//! The command-line downloader: the item a track id names, and the file a
//! downloaded track is saved under.

use vstd::prelude::*;
use vstd::string::StringSliceAdditionalSpecFns;
use vstd::string::StringExecFns;
use crate::item::{base62_value, id_bound, Error, ItemId, ItemIdType, NormalizationLevel, PlaybackItem};

verus! {

/// What the naming of a saved track reads from its metadata: the track's
/// name and the names of its artists, in order.
pub struct TrackTags {
    pub name: Option<String>,
    pub artist_names: Vec<Option<String>>,
}

/// Whether the first artist of the track has a name (naming needs it).
pub open spec fn has_first_artist_name(t: TrackTags) -> bool {
    t.artist_names@.len() > 0 && t.artist_names@[0] is Some
}

/// The track's name, empty when it has none.
pub open spec fn track_name(t: TrackTags) -> Seq<char> {
    match t.name {
        Some(n) => n@,
        None => Seq::empty(),
    }
}

/// The file name a track is saved under: `<track name> - <first artist>.ogg`.
pub open spec fn saved_file_name(t: TrackTags) -> Seq<char> {
    track_name(t) + " - "@ + t.artist_names@[0]->Some_0@ + ".ogg"@
}

/// The file name a track is saved under (see [`saved_file_name`]).
pub fn track_file_name(track: &TrackTags) -> (r: String)
    requires
        has_first_artist_name(*track),
    ensures
        r@ == saved_file_name(*track),
        r@ == (match track.name {
            Some(n) => n@,
            None => Seq::<char>::empty(),
        }) + " - "@ + track.artist_names@[0]->Some_0@ + ".ogg"@,
{
    let mut name = String::new();
    match &track.name {
        Some(n) => name.append(n.as_str()),
        None => {},
    }
    name.append(" - ");
    match &track.artist_names[0] {
        Some(a) => name.append(a.as_str()),
        None => {},
    }
    name.append(".ogg");
    name
}

/// The playback item of the track that `track_id` (base 62) names, with
/// track normalisation. The id must parse.
pub fn start(track_id: &str) -> (r: PlaybackItem)
    requires
        base62_value(track_id.spec_bytes()) matches Some(v) && v < id_bound(),
    ensures
        base62_value(track_id.spec_bytes()) == Some(r.item_id.id as nat),
        r.item_id.id_type == ItemIdType::Track,
        r.norm_level == NormalizationLevel::Track,
{
    let item_id = ItemId::from_base62(track_id, ItemIdType::Track).unwrap();
    PlaybackItem { item_id, norm_level: NormalizationLevel::Track }
}

/// What to do with `item` once its track metadata has loaded: a failure to
/// load is passed on; otherwise the item is to be saved under the track's
/// file name.
pub fn save_item(item: PlaybackItem, track: Result<TrackTags, Error>) -> (r: Result<(PlaybackItem, String), Error>)
    requires
        track matches Ok(t) ==> has_first_artist_name(t),
    ensures
        match track {
            Err(e) => r matches Err(e2) && e2 == e,
            Ok(t) => r matches Ok((i, n)) && i == item && n@ == saved_file_name(t),
        },
{
    match track {
        Err(e) => Err(e),
        Ok(t) => {
            let name = track_file_name(&t);
            Ok((item, name))
        },
    }
}


/// The saved file name is the whole track name (nothing when it has none),
/// then ` - `, then the whole name of the first artist, then `.ogg`: it is
/// seven characters longer than the two names, starts with the whole track
/// name and ends with the whole artist name and `.ogg`.
pub proof fn lemma_saved_file_name(t: TrackTags)
    requires
        has_first_artist_name(t),
    ensures
        ({
            let name: Seq<char> = match t.name {
                Some(n) => n@,
                None => Seq::empty(),
            };
            let artist = t.artist_names@[0]->Some_0@;
            &&& saved_file_name(t) == name + " - "@ + artist + ".ogg"@
            &&& saved_file_name(t).len() == name.len() + artist.len() + 7
            &&& saved_file_name(t).subrange(0, name.len() as int) == name
            &&& saved_file_name(t).subrange(
                name.len() + 3 as int,
                name.len() + 3 + artist.len() as int,
            ) == artist
        }),
{
    reveal_strlit(" - ");
    reveal_strlit(".ogg");
    let name: Seq<char> = match t.name {
        Some(n) => n@,
        None => Seq::empty(),
    };
    let artist = t.artist_names@[0]->Some_0@;
    let s = saved_file_name(t);
    assert(s.subrange(0, name.len() as int) =~= name);
    assert(s.subrange(name.len() + 3 as int, name.len() + 3 + artist.len() as int) =~= artist);
}

} // verus!
