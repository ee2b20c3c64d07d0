use spotify_ripper::item::{Error, FileId, AudioFormat, ItemId, ItemIdType, MediaPath};
use spotify_ripper::lookup::{
    country_code_answer, get_country_code, load_audio_key, load_episode, load_track, Lookup,
    LookupAction, LookupEvent,
};

fn track(n: u128) -> ItemId {
    ItemId { id: n, id_type: ItemIdType::Track }
}

#[test]
fn cached_value_is_returned_without_fetching() {
    let (l, a) = load_track::<&str>(track(7));
    assert_eq!(a, LookupAction::ReadCache(track(7)));
    let (l, a) = l.step(LookupEvent::CacheRead(Some("cached track")));
    assert_eq!(a, LookupAction::Finished);
    assert_eq!(l.into_answer().unwrap().ok(), Some("cached track"));
}

#[test]
fn fetched_value_is_saved_and_returned_even_if_saving_fails() {
    let (l, _) = load_episode::<&str>(track(8));
    let (l, a) = l.step(LookupEvent::CacheRead(None));
    assert_eq!(a, LookupAction::Fetch(track(8)));
    let (l, a) = l.step(LookupEvent::Fetched(Ok("fresh episode")));
    assert_eq!(a, LookupAction::WriteCache(track(8)));
    assert_eq!(l.value_to_save(), Some(&"fresh episode"));
    let (l, a) = l.step(LookupEvent::CacheWritten(false));
    assert_eq!(a, LookupAction::Finished);
    assert_eq!(l.into_answer().unwrap().ok(), Some("fresh episode"));
}

#[test]
fn fetch_failure_is_passed_on_and_nothing_saved() {
    let (l, _) = load_track::<&str>(track(9));
    let (l, _) = l.step(LookupEvent::CacheRead(None));
    let (l, a) = l.step(LookupEvent::Fetched(Err(Error::Failed("offline".to_string()))));
    assert_eq!(a, LookupAction::Finished);
    assert!(l.value_to_save().is_none());
    match l.into_answer() {
        Some(Err(Error::Failed(m))) => assert_eq!(m, "offline"),
        _ => panic!("expected the fetch failure"),
    }
}

#[test]
fn unexpected_event_is_ignored() {
    let (l, _) = load_track::<&str>(track(1));
    let (l, a) = l.step(LookupEvent::CacheWritten(true));
    assert_eq!(a, LookupAction::ReadCache(track(1)));
    assert!(l.into_answer().is_none());
}

#[test]
fn audio_key_is_looked_up_by_item_and_file() {
    let path = MediaPath {
        item_id: track(3),
        file_id: FileId([5; 20]),
        file_format: AudioFormat::OggVorbis,
        duration_ms: 1000,
    };
    let (l, a) = load_audio_key::<[u8; 16]>(&path);
    match a {
        LookupAction::ReadCache((item, file)) => {
            assert_eq!(item, track(3));
            assert_eq!(file.0, [5; 20]);
        },
        _ => panic!("expected a cache read"),
    }
    let (l, a) = l.step(LookupEvent::CacheRead(None));
    assert!(matches!(a, LookupAction::Fetch(_)));
    let (_, a) = l.step(LookupEvent::Fetched(Ok([1; 16])));
    assert!(matches!(a, LookupAction::WriteCache(_)));
}

#[test]
fn country_code_unknown_when_service_cannot_tell() {
    let (l, a) = get_country_code();
    assert_eq!(a, LookupAction::ReadCache(()));
    let (l, _) = l.step(LookupEvent::CacheRead(None));
    let (l, _) = l.step(LookupEvent::Fetched(Err(())));
    assert_eq!(country_code_answer(l.into_answer().unwrap()), None);
}

#[test]
fn country_code_from_cache() {
    let (l, _) = get_country_code();
    let (l, _) = l.step(LookupEvent::CacheRead(Some("SE".to_string())));
    assert_eq!(country_code_answer(l.into_answer().unwrap()), Some("SE".to_string()));
}

#[test]
fn new_lookup_reads_cache_first() {
    let (l, a) = Lookup::<u32, u32, ()>::new(4);
    assert_eq!(a, LookupAction::ReadCache(4));
    assert_eq!(l.key, 4);
}
