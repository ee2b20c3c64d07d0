use spotify_ripper::item::{AudioFormat, Error, FileId, ItemId, ItemIdType, MediaPath};
use spotify_ripper::media_path::{load_media_path, MediaPathResolver, ResolveAction, ResolveEvent};

fn track(n: u128) -> ItemId {
    ItemId { id: n, id_type: ItemIdType::Track }
}

fn episode(n: u128) -> ItemId {
    ItemId { id: n, id_type: ItemIdType::Podcast }
}

fn path_of(item: ItemId, file: u8) -> MediaPath {
    MediaPath {
        item_id: item,
        file_id: FileId([file; 20]),
        file_format: AudioFormat::OggVorbis,
        duration_ms: 200_000,
    }
}

fn finish(r: MediaPathResolver) -> Result<MediaPath, Error> {
    r.into_result().expect("resolution finished")
}

#[test]
fn available_track_uses_its_own_file() {
    let (r, a) = load_media_path(track(1), 320);
    assert!(matches!(a, ResolveAction::LoadTrack(i) if i == track(1)));
    let (r, a) = r.step(ResolveEvent::Loaded(Ok(())));
    assert!(matches!(a, ResolveAction::GetCountryCode));
    let (r, a) = r.step(ResolveEvent::CountryCode(Some("DE".to_string())));
    assert!(matches!(&a, ResolveAction::CheckTrackRestricted(i, c) if *i == track(1) && c == "DE"));
    let (r, a) = r.step(ResolveEvent::Restricted(false));
    assert!(matches!(a, ResolveAction::TrackMediaPath(i, 320) if i == track(1)));
    let (r, a) = r.step(ResolveEvent::Path(Some(path_of(track(1), 9))));
    assert!(matches!(a, ResolveAction::Finished));
    let p = finish(r).unwrap();
    assert_eq!(p.item_id, track(1));
    assert_eq!(p.file_id.0, [9; 20]);
}

#[test]
fn unknown_country_skips_the_restriction_check() {
    let (r, _) = load_media_path(track(1), 160);
    let (r, _) = r.step(ResolveEvent::Loaded(Ok(())));
    let (r, a) = r.step(ResolveEvent::CountryCode(None));
    assert!(matches!(a, ResolveAction::TrackMediaPath(i, 160) if i == track(1)));
    let (r, _) = r.step(ResolveEvent::Path(None));
    assert!(matches!(finish(r), Err(Error::MediaFileNotFound)));
}

#[test]
fn restricted_track_falls_back_to_alternative_under_requested_id() {
    let (r, _) = load_media_path(track(1), 320);
    let (r, _) = r.step(ResolveEvent::Loaded(Ok(())));
    let (r, _) = r.step(ResolveEvent::CountryCode(Some("US".to_string())));
    let (r, a) = r.step(ResolveEvent::Restricted(true));
    assert!(matches!(&a, ResolveAction::FindAlternative(i, c) if *i == track(1) && c == "US"));
    let (r, a) = r.step(ResolveEvent::Alternative(Some(track(2))));
    assert!(matches!(a, ResolveAction::LoadTrack(i) if i == track(2)));
    let (r, a) = r.step(ResolveEvent::Loaded(Ok(())));
    assert!(matches!(a, ResolveAction::TrackMediaPath(i, 320) if i == track(2)));
    let (r, _) = r.step(ResolveEvent::Path(Some(path_of(track(2), 4))));
    let p = finish(r).unwrap();
    assert_eq!(p.item_id, track(1));
    assert_eq!(p.file_id.0, [4; 20]);
    assert_eq!(p.duration_ms, 200_000);
}

#[test]
fn restricted_track_without_alternative_has_no_file() {
    let (r, _) = load_media_path(track(1), 320);
    let (r, _) = r.step(ResolveEvent::Loaded(Ok(())));
    let (r, _) = r.step(ResolveEvent::CountryCode(Some("US".to_string())));
    let (r, _) = r.step(ResolveEvent::Restricted(true));
    let (r, a) = r.step(ResolveEvent::Alternative(None));
    assert!(matches!(a, ResolveAction::Finished));
    assert!(matches!(finish(r), Err(Error::MediaFileNotFound)));
}

#[test]
fn alternative_that_fails_to_load_passes_the_failure_on() {
    let (r, _) = load_media_path(track(1), 320);
    let (r, _) = r.step(ResolveEvent::Loaded(Ok(())));
    let (r, _) = r.step(ResolveEvent::CountryCode(Some("US".to_string())));
    let (r, _) = r.step(ResolveEvent::Restricted(true));
    let (r, _) = r.step(ResolveEvent::Alternative(Some(track(2))));
    let (r, _) = r.step(ResolveEvent::Loaded(Err(Error::Failed("gone".to_string()))));
    assert!(matches!(finish(r), Err(Error::Failed(m)) if m == "gone"));
}

#[test]
fn alternative_without_file_has_no_file() {
    let (r, _) = load_media_path(track(1), 96);
    let (r, _) = r.step(ResolveEvent::Loaded(Ok(())));
    let (r, _) = r.step(ResolveEvent::CountryCode(Some("US".to_string())));
    let (r, _) = r.step(ResolveEvent::Restricted(true));
    let (r, _) = r.step(ResolveEvent::Alternative(Some(track(2))));
    let (r, _) = r.step(ResolveEvent::Loaded(Ok(())));
    let (r, _) = r.step(ResolveEvent::Path(None));
    assert!(matches!(finish(r), Err(Error::MediaFileNotFound)));
}

#[test]
fn track_load_failure_is_passed_on() {
    let (r, _) = load_media_path(track(1), 320);
    let (r, a) = r.step(ResolveEvent::Loaded(Err(Error::Failed("no session".to_string()))));
    assert!(matches!(a, ResolveAction::Finished));
    assert!(matches!(finish(r), Err(Error::Failed(m)) if m == "no session"));
}

#[test]
fn restricted_episode_has_no_file() {
    let (r, a) = load_media_path(episode(5), 320);
    assert!(matches!(a, ResolveAction::LoadEpisode(i) if i == episode(5)));
    let (r, _) = r.step(ResolveEvent::Loaded(Ok(())));
    let (r, a) = r.step(ResolveEvent::CountryCode(Some("FR".to_string())));
    assert!(matches!(&a, ResolveAction::CheckEpisodeRestricted(i, c) if *i == episode(5) && c == "FR"));
    let (r, _) = r.step(ResolveEvent::Restricted(true));
    assert!(matches!(finish(r), Err(Error::MediaFileNotFound)));
}

#[test]
fn available_episode_uses_its_file() {
    let (r, _) = load_media_path(episode(5), 160);
    let (r, _) = r.step(ResolveEvent::Loaded(Ok(())));
    let (r, _) = r.step(ResolveEvent::CountryCode(Some("FR".to_string())));
    let (r, a) = r.step(ResolveEvent::Restricted(false));
    assert!(matches!(a, ResolveAction::EpisodeMediaPath(i, 160) if i == episode(5)));
    let (r, _) = r.step(ResolveEvent::Path(Some(path_of(episode(5), 2))));
    assert_eq!(finish(r).unwrap().item_id, episode(5));
}

#[test]
fn unawaited_event_is_ignored() {
    let (r, _) = load_media_path(track(1), 320);
    let (r, a) = r.step(ResolveEvent::Restricted(true));
    assert!(matches!(a, ResolveAction::LoadTrack(i) if i == track(1)));
    assert!(r.into_result().is_none());
}
