//! Request handling of the ripper service: the track a Pub/Sub push message
//! asks for, the messages that request downloads, the album search, and
//! the answer to a download link request.

use vstd::prelude::*;
use vstd::string::StringSliceAdditionalSpecFns;
use vstd::utf8::{encode_utf8, valid_utf8};
use crate::item::{base62_value, id_bound, ItemId, ItemIdType, NormalizationLevel, PlaybackItem};

verus! {

/// The error type of `base64::decode`, carried through opaquely.
#[verifier::external_type_specification]
#[verifier::external_body]
pub struct ExDecodeError(base64::DecodeError);

/// What standard Base64 decoding (with padding) makes of `input`; `None`
/// when `input` is not valid Base64.
pub uninterp spec fn base64_decoded(input: Seq<u8>) -> Option<Seq<u8>>;

/// Calls `base64::decode`, which decodes with the standard alphabet and
/// padding. Claimed: it succeeds exactly when `base64_decoded` gives bytes,
/// and then gives those bytes; the decoding itself is not stated.
#[verifier::external_body]
#[allow(deprecated)]
fn base64_decode(input: &[u8]) -> (r: Result<Vec<u8>, base64::DecodeError>)
    ensures
        r is Ok <==> base64_decoded(input@) is Some,
        r matches Ok(v) ==> base64_decoded(input@) == Some(v@),
{
    base64::decode(input)
}

/// Calls `std::str::from_utf8`. Claimed, as its documentation says: it
/// succeeds exactly when the bytes are valid UTF-8, and the string it gives
/// is made of those bytes.
#[verifier::external_body]
fn str_from_utf8(bytes: &[u8]) -> (r: Option<&str>)
    ensures
        r is Some <==> valid_utf8(bytes@),
        r matches Some(s) ==> s.spec_bytes() == bytes@,
{
    std::str::from_utf8(bytes).ok()
}

/// Why a push message names no track.
#[derive(Clone, Copy, Debug, PartialEq, Eq, Structural)]
pub enum MessageError {
    /// The message data is not Base64.
    NotBase64,
    /// The decoded data is not UTF-8 text.
    NotText,
    /// The text is not a base-62 track id.
    NotTrackId,
}

/// The track number that decoded message data carries: the data is the
/// UTF-8 text of the track's base-62 id.
pub open spec fn text_track(b: Seq<u8>) -> Result<nat, MessageError> {
    if !valid_utf8(b) {
        Err(MessageError::NotText)
    } else {
        match base62_value(b) {
            Some(v) if v < id_bound() => Ok(v),
            _ => Err(MessageError::NotTrackId),
        }
    }
}

/// The track number that the data of a push message carries: the data is
/// Base64 of the UTF-8 text of the track's base-62 id.
pub open spec fn message_track(data: Seq<u8>) -> Result<nat, MessageError> {
    match base64_decoded(data) {
        None => Err(MessageError::NotBase64),
        Some(b) => text_track(b),
    }
}

/// The item that decoded message data asks to download: the track whose
/// base-62 id the data holds as UTF-8 text, with track normalisation.
pub fn track_from_text(bytes: &[u8]) -> (r: Result<PlaybackItem, MessageError>)
    ensures
        match text_track(bytes@) {
            Ok(v) => r matches Ok(item) && item.item_id.id == v && item.item_id.id_type
                == ItemIdType::Track && item.norm_level == NormalizationLevel::Track,
            Err(e) => r == Err::<PlaybackItem, MessageError>(e),
        },
{
    let text = match str_from_utf8(bytes) {
        Some(t) => t,
        None => return Err(MessageError::NotText),
    };
    match ItemId::from_base62(text, ItemIdType::Track) {
        Some(item_id) => Ok(PlaybackItem { item_id, norm_level: NormalizationLevel::Track }),
        None => Err(MessageError::NotTrackId),
    }
}

/// The item a push message asks to download: the track its data names,
/// with track normalisation.
pub fn track_to_download(data: &str) -> (r: Result<PlaybackItem, MessageError>)
    ensures
        match message_track(data.spec_bytes()) {
            Ok(v) => r matches Ok(item) && item.item_id.id == v && item.item_id.id_type
                == ItemIdType::Track && item.norm_level == NormalizationLevel::Track,
            Err(e) => r == Err::<PlaybackItem, MessageError>(e),
        },
{
    let decoded = match base64_decode(data.as_bytes()) {
        Ok(d) => d,
        Err(_) => return Err(MessageError::NotBase64),
    };
    track_from_text(decoded.as_slice())
}

/// The data of the messages that request the download of each track, in
/// order: the UTF-8 bytes of its id.
pub fn download_requests(track_ids: &Vec<String>) -> (r: Vec<Vec<u8>>)
    ensures
        r@.len() == track_ids@.len(),
        forall|i: int| 0 <= i < r@.len() ==> #[trigger] r@[i]@ == encode_utf8(track_ids@[i]@),
{
    let mut r: Vec<Vec<u8>> = Vec::new();
    let mut i: usize = 0;
    while i < track_ids.len()
        invariant
            i <= track_ids@.len(),
            r@.len() == i,
            forall|j: int| 0 <= j < i ==> #[trigger] r@[j]@ == encode_utf8(track_ids@[j]@),
        decreases track_ids@.len() - i,
    {
        let bytes = track_ids[i].as_str().as_bytes();
        let mut data: Vec<u8> = Vec::new();
        data.extend_from_slice(bytes);
        assert(data@ =~= bytes@);
        r.push(data);
        i = i + 1;
    }
    r
}

/// How many albums an album search asks for.
pub const ALBUM_SEARCH_LIMIT: u32 = 1;

/// How many tracks of an album are asked for, and from which position.
pub const ALBUM_TRACKS_LIMIT: u32 = 50;
pub const ALBUM_TRACKS_OFFSET: u32 = 0;

/// What an album search came back with.
pub enum AlbumSearch {
    /// Albums were found: their ids, in order (an album may lack one).
    Albums(Vec<Option<String>>),
    /// The search gave something other than albums.
    OtherResults,
    /// The search failed.
    Failed,
}

/// How to answer an album search.
pub enum AlbumSearchReply {
    /// Answer with the tracks of this album.
    TracksOf(String),
    /// Answer with no tracks.
    NoTracks,
}

/// Whether the first album found, if any, has an id (answering needs it).
pub open spec fn first_album_has_id(s: AlbumSearch) -> bool {
    s matches AlbumSearch::Albums(ids) ==> (ids@.len() > 0 ==> ids@[0] is Some)
}

/// Answers a search for an album by the tracks of the first album found;
/// with no tracks when no album was found or the search failed.
pub fn search_tracks_from_album(search: AlbumSearch) -> (r: AlbumSearchReply)
    requires
        first_album_has_id(search),
    ensures
        match search {
            AlbumSearch::Albums(ids) => if ids@.len() > 0 {
                r matches AlbumSearchReply::TracksOf(id) && Some(id) == ids@[0]
            } else {
                r is NoTracks
            },
            _ => r is NoTracks,
        },
{
    match search {
        AlbumSearch::Albums(ids) => {
            if ids.len() > 0 {
                let mut ids = ids;
                let first = ids.swap_remove(0);
                match first {
                    Some(id) => AlbumSearchReply::TracksOf(id),
                    None => AlbumSearchReply::NoTracks,
                }
            } else {
                AlbumSearchReply::NoTracks
            }
        },
        _ => AlbumSearchReply::NoTracks,
    }
}

/// The tracks of an album: those of the page the service gave, none when it
/// failed.
pub fn get_tracks_from_album<T, E>(page: Result<Vec<T>, E>) -> (r: Vec<T>)
    ensures
        match page {
            Ok(items) => r@ == items@,
            Err(_) => r@.len() == 0,
        },
{
    match page {
        Ok(items) => items,
        Err(_) => Vec::new(),
    }
}

/// Where a request for a download link is sent.
pub enum Redirect {
    /// A temporary redirect to this signed URL.
    Temporary(String),
    /// A redirect to this path.
    To(String),
}

/// Sends a request for a download link to the signed URL when one was
/// made, else to the root page.
pub fn download_track(signed_url: Result<String, ()>) -> (r: Redirect)
    ensures
        match signed_url {
            Ok(url) => r == Redirect::Temporary(url),
            Err(_) => r matches Redirect::To(p) && p@ == "/"@,
        },
{
    match signed_url {
        Ok(url) => Redirect::Temporary(url),
        Err(_) => Redirect::To(String::from_str("/")),
    }
}

} // verus!
