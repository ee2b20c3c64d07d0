use spotify_ripper::download::{DownloadAction, DownloadEvent, BYTES_READ_BUFFER, FILE_READ_BUFFER};
use spotify_ripper::item::{
    AudioFormat, Error, FileId, ItemId, ItemIdType, MediaPath, NormalizationLevel, PlaybackItem,
};

fn item() -> PlaybackItem {
    PlaybackItem {
        item_id: ItemId { id: 42, id_type: ItemIdType::Track },
        norm_level: NormalizationLevel::Track,
    }
}

fn path() -> MediaPath {
    MediaPath {
        item_id: item().item_id,
        file_id: FileId([1; 20]),
        file_format: AudioFormat::OggVorbis,
        duration_ms: 1,
    }
}

#[test]
fn bytes_are_collected_until_an_empty_read() {
    let (mut d, a) = item().save_as_bytes(320);
    assert!(matches!(a, DownloadAction::ResolvePath(i, 320) if i == item().item_id));
    assert!(matches!(d.step(DownloadEvent::PathResolved(Ok(path()))), DownloadAction::LoadKey(_)));
    assert!(matches!(d.step(DownloadEvent::KeyLoaded(Ok(()))), DownloadAction::Open(_)));
    assert!(matches!(d.step(DownloadEvent::Opened(Ok(()))), DownloadAction::Decrypt));
    let a = d.step(DownloadEvent::SourceReady(Ok(())));
    assert!(matches!(a, DownloadAction::Read(n) if n == BYTES_READ_BUFFER));
    assert_eq!(BYTES_READ_BUFFER, 512000);
    d.step(DownloadEvent::Read(Some(vec![1, 2, 3])));
    d.step(DownloadEvent::Read(Some(vec![4])));
    let a = d.step(DownloadEvent::Read(Some(vec![])));
    assert!(matches!(a, DownloadAction::Finished));
    d.step(DownloadEvent::Read(Some(vec![9])));
    assert_eq!(d.into_bytes().unwrap().unwrap(), vec![1, 2, 3, 4]);
}

#[test]
fn a_failing_read_ends_the_download_without_error() {
    let (mut d, _) = item().save_as_bytes(320);
    d.step(DownloadEvent::PathResolved(Ok(path())));
    d.step(DownloadEvent::KeyLoaded(Ok(())));
    d.step(DownloadEvent::Opened(Ok(())));
    d.step(DownloadEvent::SourceReady(Ok(())));
    d.step(DownloadEvent::Read(Some(vec![7, 7])));
    d.step(DownloadEvent::Read(None));
    assert_eq!(d.into_bytes().unwrap().unwrap(), vec![7, 7]);
}

#[test]
fn preparation_failures_end_the_download() {
    let (mut d, _) = item().save_as_bytes(320);
    let a = d.step(DownloadEvent::PathResolved(Err(Error::MediaFileNotFound)));
    assert!(matches!(a, DownloadAction::Finished));
    assert!(matches!(d.into_bytes(), Some(Err(Error::MediaFileNotFound))));

    let (mut d, _) = item().save_as_bytes(320);
    d.step(DownloadEvent::PathResolved(Ok(path())));
    d.step(DownloadEvent::KeyLoaded(Ok(())));
    d.step(DownloadEvent::Opened(Ok(())));
    d.step(DownloadEvent::SourceReady(Err(Error::Failed("bad key".to_string()))));
    assert!(matches!(d.into_bytes(), Some(Err(Error::Failed(m))) if m == "bad key"));
}

#[test]
fn unfinished_download_has_no_bytes_yet() {
    let (mut d, _) = item().save_as_bytes(320);
    d.step(DownloadEvent::PathResolved(Ok(path())));
    assert!(d.into_bytes().is_none());
}

#[test]
fn file_download_writes_each_chunk_and_counts() {
    let (mut d, _) = item().save(160);
    d.step(DownloadEvent::PathResolved(Ok(path())));
    d.step(DownloadEvent::KeyLoaded(Ok(())));
    d.step(DownloadEvent::Opened(Ok(())));
    assert!(matches!(d.step(DownloadEvent::SourceReady(Ok(()))), DownloadAction::CreateFile));
    let a = d.step(DownloadEvent::FileCreated(Ok(())));
    assert!(matches!(a, DownloadAction::Read(n) if n == FILE_READ_BUFFER));
    assert_eq!(FILE_READ_BUFFER, 8192 * 16);
    assert!(matches!(d.step(DownloadEvent::Read(Some(vec![0; 10]))), DownloadAction::Write(10)));
    assert!(matches!(d.step(DownloadEvent::Written(Ok(10))), DownloadAction::Read(_)));
    assert!(matches!(d.step(DownloadEvent::Read(Some(vec![0; 5]))), DownloadAction::Write(5)));
    d.step(DownloadEvent::Written(Ok(3)));
    let a = d.step(DownloadEvent::Read(Some(vec![])));
    assert!(matches!(a, DownloadAction::Finished));
    assert_eq!(d.total_read, 15);
    assert_eq!(d.total_write, 13);
    assert!(d.bytes.is_empty());
}

#[test]
fn file_write_failure_ends_with_it() {
    let (mut d, _) = item().save(160);
    d.step(DownloadEvent::PathResolved(Ok(path())));
    d.step(DownloadEvent::KeyLoaded(Ok(())));
    d.step(DownloadEvent::Opened(Ok(())));
    d.step(DownloadEvent::SourceReady(Ok(())));
    d.step(DownloadEvent::FileCreated(Ok(())));
    d.step(DownloadEvent::Read(Some(vec![1, 2])));
    let a = d.step(DownloadEvent::Written(Err(Error::Failed("disk full".to_string()))));
    assert!(matches!(a, DownloadAction::Finished));
    assert_eq!(d.total_read, 0);
    assert!(matches!(d.into_bytes(), Some(Err(Error::Failed(m))) if m == "disk full"));
}

#[test]
fn file_creation_failure_ends_with_it() {
    let (mut d, _) = item().save(160);
    d.step(DownloadEvent::PathResolved(Ok(path())));
    d.step(DownloadEvent::KeyLoaded(Ok(())));
    d.step(DownloadEvent::Opened(Ok(())));
    d.step(DownloadEvent::SourceReady(Ok(())));
    d.step(DownloadEvent::FileCreated(Err(Error::Failed("read-only".to_string()))));
    assert!(matches!(d.into_bytes(), Some(Err(Error::Failed(_)))));
}

#[test]
fn item_load_track_reads_cache_for_its_id() {
    let (_, a) = item().load_track::<u8>();
    assert!(matches!(a, spotify_ripper::lookup::LookupAction::ReadCache(i) if i == item().item_id));
}

#[test]
fn file_download_asks_to_write_each_chunk_read() {
    let (mut d, _) = item().save(160);
    d.step(DownloadEvent::PathResolved(Ok(path())));
    d.step(DownloadEvent::KeyLoaded(Ok(())));
    d.step(DownloadEvent::Opened(Ok(())));
    d.step(DownloadEvent::SourceReady(Ok(())));
    d.step(DownloadEvent::FileCreated(Ok(())));
    let mut file: Vec<u8> = Vec::new();
    for chunk in [vec![1u8, 2, 3], vec![4u8, 5]] {
        let a = d.step(DownloadEvent::Read(Some(chunk.clone())));
        assert!(matches!(a, DownloadAction::Write(n) if n == chunk.len()));
        assert_eq!(d.chunk_to_write(), chunk.as_slice());
        file.extend_from_slice(d.chunk_to_write());
        d.step(DownloadEvent::Written(Ok(chunk.len())));
    }
    d.step(DownloadEvent::Read(Some(vec![])));
    assert_eq!(file, vec![1, 2, 3, 4, 5]);
    assert_eq!((d.total_read, d.total_write), (5, 5));
}
