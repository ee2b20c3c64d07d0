use spotify_ripper::cli::{save_item, start, track_file_name, TrackTags};
use spotify_ripper::item::{Error, ItemIdType, NormalizationLevel};
use spotify_ripper::ripper::{
    download_requests, download_track, get_tracks_from_album, search_tracks_from_album,
    track_to_download, AlbumSearch, AlbumSearchReply, MessageError, Redirect, ALBUM_SEARCH_LIMIT,
    ALBUM_TRACKS_LIMIT, ALBUM_TRACKS_OFFSET,
};

#[test]
fn start_names_the_track_item() {
    let item = start("4uLU6hMCjMI75M1A2tKUQC");
    assert_eq!(item.item_id.id, 196373991439130863212091700994220317246u128);
    assert_eq!(item.item_id.id_type, ItemIdType::Track);
    assert_eq!(item.norm_level, NormalizationLevel::Track);
}

#[test]
fn saved_file_is_named_after_track_and_first_artist() {
    let tags = TrackTags {
        name: Some("Dancing Queen".to_string()),
        artist_names: vec![Some("ABBA".to_string()), Some("Other".to_string())],
    };
    assert_eq!(track_file_name(&tags), "Dancing Queen - ABBA.ogg");
    let item = start("10");
    let (saved, name) = save_item(item, Ok(tags)).unwrap();
    assert_eq!(saved, item);
    assert_eq!(name, "Dancing Queen - ABBA.ogg");
}

#[test]
fn nameless_track_gets_empty_name() {
    let tags = TrackTags { name: None, artist_names: vec![Some("X".to_string())] };
    assert_eq!(track_file_name(&tags), " - X.ogg");
}

#[test]
fn save_item_passes_load_failure_on() {
    let r = save_item(start("1"), Err(Error::Failed("no track".to_string())));
    assert!(matches!(r, Err(Error::Failed(m)) if m == "no track"));
}

#[test]
fn push_message_names_the_track() {
    let item = track_to_download("NHVMVTZoTUNqTUk3NU0xQTJ0S1VRQw==").unwrap();
    assert_eq!(item.item_id.id, 196373991439130863212091700994220317246u128);
    assert_eq!(item.item_id.id_type, ItemIdType::Track);
    assert_eq!(item.norm_level, NormalizationLevel::Track);
}

#[test]
fn push_message_errors() {
    assert_eq!(track_to_download("not base64!").unwrap_err(), MessageError::NotBase64);
    assert_eq!(track_to_download("NHVM/1U=").unwrap_err(), MessageError::NotText);
    assert_eq!(track_to_download("YS1i").unwrap_err(), MessageError::NotTrackId);
}

#[test]
fn download_requests_carry_the_ids() {
    let ids = vec!["abc".to_string(), "4uLU".to_string()];
    let data = download_requests(&ids);
    assert_eq!(data, vec![b"abc".to_vec(), b"4uLU".to_vec()]);
    assert!(download_requests(&vec![]).is_empty());
}

#[test]
fn album_search_takes_first_album() {
    let r = search_tracks_from_album(AlbumSearch::Albums(vec![
        Some("1DFixLWuPkv3KT3TnV35m3".to_string()),
        Some("other".to_string()),
    ]));
    assert!(matches!(r, AlbumSearchReply::TracksOf(id) if id == "1DFixLWuPkv3KT3TnV35m3"));
    assert!(matches!(search_tracks_from_album(AlbumSearch::Albums(vec![])), AlbumSearchReply::NoTracks));
    assert!(matches!(search_tracks_from_album(AlbumSearch::OtherResults), AlbumSearchReply::NoTracks));
    assert!(matches!(search_tracks_from_album(AlbumSearch::Failed), AlbumSearchReply::NoTracks));
    assert_eq!((ALBUM_SEARCH_LIMIT, ALBUM_TRACKS_LIMIT, ALBUM_TRACKS_OFFSET), (1, 50, 0));
}

#[test]
fn album_tracks_empty_on_failure() {
    assert_eq!(get_tracks_from_album::<u8, ()>(Ok(vec![1, 2])), vec![1, 2]);
    assert!(get_tracks_from_album::<u8, ()>(Err(())).is_empty());
}

#[test]
fn download_link_redirects() {
    assert!(matches!(download_track(Ok("https://x/y".to_string())), Redirect::Temporary(u) if u == "https://x/y"));
    assert!(matches!(download_track(Err(())), Redirect::To(p) if p == "/"));
}

#[test]
fn decoded_text_names_the_track() {
    let item = spotify_ripper::ripper::track_from_text(b"4uLU6hMCjMI75M1A2tKUQC").unwrap();
    assert_eq!(item.item_id.id, 196373991439130863212091700994220317246u128);
    assert_eq!(
        spotify_ripper::ripper::track_from_text(&[0x34, 0xff]).unwrap_err(),
        MessageError::NotText
    );
    assert_eq!(spotify_ripper::ripper::track_from_text(b"a-b").unwrap_err(), MessageError::NotTrackId);
}
