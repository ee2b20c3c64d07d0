//! Downloading the decrypted audio of a playback item, either into memory
//! or into a file.
//!
//! The item is resolved to a media file, its decryption key is loaded, the
//! file is opened on the CDN and a decrypting reader is set up; then chunks
//! are read until a read gives nothing or fails. In memory the chunks are
//! collected; into a file each chunk is written as it comes and the bytes
//! read and written are counted. The host performs each
//! [`DownloadAction`] and reports a [`DownloadEvent`].

use vstd::prelude::*;
use crate::item::{Error, ItemId, ItemIdType, MediaPath, PlaybackItem};
use crate::lookup::{Lookup, LookupAction};

verus! {

/// The buffer (in bytes) that an in-memory download reads into.
pub const BYTES_READ_BUFFER: usize = 512000;

/// The buffer (in bytes) that a download into a file reads into.
pub const FILE_READ_BUFFER: usize = 131072;

/// Where the audio goes.
#[derive(Clone, Copy, Debug, PartialEq, Eq, Structural)]
pub enum DownloadTarget {
    /// Collected in memory.
    Bytes,
    /// Written to a file as it is read.
    File,
}

/// Where a download stands.
#[derive(Debug)]
pub enum DownloadPhase {
    /// Waiting for the media file of the item.
    ResolvingPath,
    /// Waiting for the decryption key of this file.
    LoadingKey(MediaPath),
    /// Waiting for this file to open on the CDN.
    Opening(MediaPath),
    /// Waiting for the decrypting reader.
    Decrypting,
    /// Waiting for the output file to be created.
    CreatingFile,
    /// Waiting for the next chunk.
    Reading,
    /// Waiting for the chunk of this many bytes to be written.
    Writing(usize),
    /// Finished.
    Done(Result<(), Error>),
}

/// A download of `item_id` at the preferred `bitrate`.
pub struct Download {
    pub item_id: ItemId,
    pub bitrate: usize,
    pub target: DownloadTarget,
    pub phase: DownloadPhase,
    /// What an in-memory download has collected.
    pub bytes: Vec<u8>,
    /// Bytes read so far by a download into a file.
    pub total_read: usize,
    /// Bytes written so far by a download into a file.
    pub total_write: usize,
    /// The chunk a download into a file is writing (or last wrote).
    pub chunk: Vec<u8>,
    /// What the writes of a download into a file have put in the file.
    pub written: Ghost<Seq<u8>>,
}

/// The mathematical state of a download.
pub struct DownloadView {
    pub item_id: ItemId,
    pub bitrate: usize,
    pub target: DownloadTarget,
    pub phase: DownloadPhase,
    pub bytes: Seq<u8>,
    pub total_read: usize,
    pub total_write: usize,
    pub chunk: Seq<u8>,
    pub written: Seq<u8>,
}

impl View for Download {
    type V = DownloadView;

    open spec fn view(&self) -> DownloadView {
        DownloadView {
            item_id: self.item_id,
            bitrate: self.bitrate,
            target: self.target,
            phase: self.phase,
            bytes: self.bytes@,
            total_read: self.total_read,
            total_write: self.total_write,
            chunk: self.chunk@,
            written: self.written@,
        }
    }
}

/// What the host reports back.
pub enum DownloadEvent {
    PathResolved(Result<MediaPath, Error>),
    KeyLoaded(Result<(), Error>),
    Opened(Result<(), Error>),
    SourceReady(Result<(), Error>),
    FileCreated(Result<(), Error>),
    /// A read gave this chunk (empty at the end of the audio), or failed.
    Read(Option<Vec<u8>>),
    /// A write took this many bytes of the chunk, or failed.
    Written(Result<usize, Error>),
}

/// The mathematical form of an event.
pub enum DownloadEventView {
    PathResolved(Result<MediaPath, Error>),
    KeyLoaded(Result<(), Error>),
    Opened(Result<(), Error>),
    SourceReady(Result<(), Error>),
    FileCreated(Result<(), Error>),
    Read(Option<Seq<u8>>),
    Written(Result<usize, Error>),
}

impl View for DownloadEvent {
    type V = DownloadEventView;

    open spec fn view(&self) -> DownloadEventView {
        match self {
            DownloadEvent::PathResolved(r) => DownloadEventView::PathResolved(*r),
            DownloadEvent::KeyLoaded(r) => DownloadEventView::KeyLoaded(*r),
            DownloadEvent::Opened(r) => DownloadEventView::Opened(*r),
            DownloadEvent::SourceReady(r) => DownloadEventView::SourceReady(*r),
            DownloadEvent::FileCreated(r) => DownloadEventView::FileCreated(*r),
            DownloadEvent::Read(Some(c)) => DownloadEventView::Read(Some(c@)),
            DownloadEvent::Read(None) => DownloadEventView::Read(None),
            DownloadEvent::Written(r) => DownloadEventView::Written(*r),
        }
    }
}

/// What the host is asked to do next.
#[derive(Clone, Copy, Debug)]
pub enum DownloadAction {
    /// Resolve the item to a media file (see `load_media_path`).
    ResolvePath(ItemId, usize),
    /// Load the decryption key of the file (see `load_audio_key`).
    LoadKey(MediaPath),
    /// Open the file on the CDN.
    Open(MediaPath),
    /// Set up the decrypting reader with the key.
    Decrypt,
    /// Create the output file.
    CreateFile,
    /// Read a chunk into a buffer of this many bytes.
    Read(usize),
    /// Write the chunk just read (of this many bytes, see
    /// [`Download::chunk_to_write`]) to the output file.
    Write(usize),
    Finished,
}

/// The buffer size of reads for a target.
pub open spec fn read_buffer(target: DownloadTarget) -> usize {
    match target {
        DownloadTarget::Bytes => BYTES_READ_BUFFER,
        DownloadTarget::File => FILE_READ_BUFFER,
    }
}

/// The action that a download in this state waits on.
pub open spec fn awaited(d: DownloadView) -> DownloadAction {
    match d.phase {
        DownloadPhase::ResolvingPath => DownloadAction::ResolvePath(d.item_id, d.bitrate),
        DownloadPhase::LoadingKey(p) => DownloadAction::LoadKey(p),
        DownloadPhase::Opening(p) => DownloadAction::Open(p),
        DownloadPhase::Decrypting => DownloadAction::Decrypt,
        DownloadPhase::CreatingFile => DownloadAction::CreateFile,
        DownloadPhase::Reading => DownloadAction::Read(read_buffer(d.target)),
        DownloadPhase::Writing(n) => DownloadAction::Write(n),
        DownloadPhase::Done(_) => DownloadAction::Finished,
    }
}

/// Whether `e` is one that `d` can take: a download into a file cannot go on
/// without its decrypting reader, and its counters must not overflow.
pub open spec fn can_take(d: DownloadView, e: DownloadEventView) -> bool {
    match (d.phase, e) {
        (DownloadPhase::Decrypting, DownloadEventView::SourceReady(Err(_))) => d.target
            == DownloadTarget::Bytes,
        (DownloadPhase::Writing(n), DownloadEventView::Written(Ok(w))) => d.total_read + n
            <= usize::MAX && d.total_write + w <= usize::MAX,
        _ => true,
    }
}

/// The state after `e`; an event that the phase does not wait on is ignored.
pub open spec fn next(d: DownloadView, e: DownloadEventView) -> DownloadView {
    match (d.phase, e) {
        (DownloadPhase::ResolvingPath, DownloadEventView::PathResolved(Err(err))) => DownloadView {
            phase: DownloadPhase::Done(Err(err)),
            ..d
        },
        (DownloadPhase::ResolvingPath, DownloadEventView::PathResolved(Ok(p))) => DownloadView {
            phase: DownloadPhase::LoadingKey(p),
            ..d
        },
        (DownloadPhase::LoadingKey(_), DownloadEventView::KeyLoaded(Err(err))) => DownloadView {
            phase: DownloadPhase::Done(Err(err)),
            ..d
        },
        (DownloadPhase::LoadingKey(p), DownloadEventView::KeyLoaded(Ok(_))) => DownloadView {
            phase: DownloadPhase::Opening(p),
            ..d
        },
        (DownloadPhase::Opening(_), DownloadEventView::Opened(Err(err))) => DownloadView {
            phase: DownloadPhase::Done(Err(err)),
            ..d
        },
        (DownloadPhase::Opening(_), DownloadEventView::Opened(Ok(_))) => DownloadView {
            phase: DownloadPhase::Decrypting,
            ..d
        },
        (DownloadPhase::Decrypting, DownloadEventView::SourceReady(Err(err))) => DownloadView {
            phase: DownloadPhase::Done(Err(err)),
            ..d
        },
        (DownloadPhase::Decrypting, DownloadEventView::SourceReady(Ok(_))) => DownloadView {
            phase: if d.target == DownloadTarget::File {
                DownloadPhase::CreatingFile
            } else {
                DownloadPhase::Reading
            },
            ..d
        },
        (DownloadPhase::CreatingFile, DownloadEventView::FileCreated(Err(err))) => DownloadView {
            phase: DownloadPhase::Done(Err(err)),
            ..d
        },
        (DownloadPhase::CreatingFile, DownloadEventView::FileCreated(Ok(_))) => DownloadView {
            phase: DownloadPhase::Reading,
            ..d
        },
        (DownloadPhase::Reading, DownloadEventView::Read(None)) => DownloadView {
            phase: DownloadPhase::Done(Ok(())),
            ..d
        },
        (DownloadPhase::Reading, DownloadEventView::Read(Some(c))) => if c.len() == 0 {
            DownloadView { phase: DownloadPhase::Done(Ok(())), ..d }
        } else if d.target == DownloadTarget::File {
            DownloadView { phase: DownloadPhase::Writing(c.len() as usize), chunk: c, ..d }
        } else {
            DownloadView { bytes: d.bytes + c, ..d }
        },
        (DownloadPhase::Writing(_), DownloadEventView::Written(Err(err))) => DownloadView {
            phase: DownloadPhase::Done(Err(err)),
            ..d
        },
        (DownloadPhase::Writing(n), DownloadEventView::Written(Ok(w))) => DownloadView {
            phase: DownloadPhase::Reading,
            total_read: (d.total_read + n) as usize,
            total_write: (d.total_write + w) as usize,
            written: d.written + d.chunk.take(taken(w, d.chunk.len())),
            ..d
        },
        _ => d,
    }
}

/// How many bytes of a chunk of `len` bytes a write that reports `w` bytes
/// put in the file.
pub open spec fn taken(w: usize, len: nat) -> int {
    if w <= len {
        w as int
    } else {
        len as int
    }
}

/// The state a download of `item` starts in.
pub open spec fn download_start(item: PlaybackItem, bitrate: usize, target: DownloadTarget) -> DownloadView {
    DownloadView {
        item_id: item.item_id,
        bitrate,
        target,
        phase: DownloadPhase::ResolvingPath,
        bytes: Seq::empty(),
        total_read: 0,
        total_write: 0,
        chunk: Seq::empty(),
        written: Seq::empty(),
    }
}

impl Download {
    fn start(item: &PlaybackItem, bitrate: usize, target: DownloadTarget) -> (r: (Download, DownloadAction))
        ensures
            r.0@ == download_start(*item, bitrate, target),
            r.1 == awaited(r.0@),
    {
        (
            Download {
                item_id: item.item_id,
                bitrate,
                target,
                phase: DownloadPhase::ResolvingPath,
                bytes: Vec::new(),
                total_read: 0,
                total_write: 0,
                chunk: Vec::new(),
                written: Ghost(Seq::empty()),
            },
            DownloadAction::ResolvePath(item.item_id, bitrate),
        )
    }

    /// Takes in what the host reports and says what to do next.
    pub fn step(&mut self, event: DownloadEvent) -> (a: DownloadAction)
        requires
            can_take(old(self)@, event@),
        ensures
            final(self)@ == next(old(self)@, event@),
            a == awaited(final(self)@),
            final(self).phase is Reading ==> a == DownloadAction::Read(
                if final(self).target == DownloadTarget::Bytes {
                    512000usize
                } else {
                    131072usize
                },
            ),
    {
        match (&self.phase, event) {
            (DownloadPhase::ResolvingPath, DownloadEvent::PathResolved(Err(err))) => {
                self.phase = DownloadPhase::Done(Err(err));
            },
            (DownloadPhase::ResolvingPath, DownloadEvent::PathResolved(Ok(p))) => {
                self.phase = DownloadPhase::LoadingKey(p);
            },
            (DownloadPhase::LoadingKey(_), DownloadEvent::KeyLoaded(Err(err))) => {
                self.phase = DownloadPhase::Done(Err(err));
            },
            (DownloadPhase::LoadingKey(p), DownloadEvent::KeyLoaded(Ok(_))) => {
                self.phase = DownloadPhase::Opening(*p);
            },
            (DownloadPhase::Opening(_), DownloadEvent::Opened(Err(err))) => {
                self.phase = DownloadPhase::Done(Err(err));
            },
            (DownloadPhase::Opening(_), DownloadEvent::Opened(Ok(_))) => {
                self.phase = DownloadPhase::Decrypting;
            },
            (DownloadPhase::Decrypting, DownloadEvent::SourceReady(Err(err))) => {
                self.phase = DownloadPhase::Done(Err(err));
            },
            (DownloadPhase::Decrypting, DownloadEvent::SourceReady(Ok(_))) => {
                self.phase = match self.target {
                    DownloadTarget::File => DownloadPhase::CreatingFile,
                    DownloadTarget::Bytes => DownloadPhase::Reading,
                };
            },
            (DownloadPhase::CreatingFile, DownloadEvent::FileCreated(Err(err))) => {
                self.phase = DownloadPhase::Done(Err(err));
            },
            (DownloadPhase::CreatingFile, DownloadEvent::FileCreated(Ok(_))) => {
                self.phase = DownloadPhase::Reading;
            },
            (DownloadPhase::Reading, DownloadEvent::Read(None)) => {
                self.phase = DownloadPhase::Done(Ok(()));
            },
            (DownloadPhase::Reading, DownloadEvent::Read(Some(chunk))) => {
                if chunk.len() == 0 {
                    self.phase = DownloadPhase::Done(Ok(()));
                } else {
                    match self.target {
                        DownloadTarget::File => {
                            self.phase = DownloadPhase::Writing(chunk.len());
                            self.chunk = chunk;
                        },
                        DownloadTarget::Bytes => {
                            self.bytes.extend_from_slice(chunk.as_slice());
                            assert(self.bytes@ =~= old(self).bytes@ + chunk@);
                        },
                    }
                }
            },
            (DownloadPhase::Writing(_), DownloadEvent::Written(Err(err))) => {
                self.phase = DownloadPhase::Done(Err(err));
            },
            (DownloadPhase::Writing(n), DownloadEvent::Written(Ok(w))) => {
                let n: usize = *n;
                let ghost took = taken(w, self.chunk@.len());
                self.written = Ghost(self.written@ + self.chunk@.take(took));
                self.total_write = self.total_write + w;
                self.total_read = self.total_read + n;
                self.phase = DownloadPhase::Reading;
            },
            _ => {},
        }
        match &self.phase {
            DownloadPhase::ResolvingPath => DownloadAction::ResolvePath(self.item_id, self.bitrate),
            DownloadPhase::LoadingKey(p) => DownloadAction::LoadKey(*p),
            DownloadPhase::Opening(p) => DownloadAction::Open(*p),
            DownloadPhase::Decrypting => DownloadAction::Decrypt,
            DownloadPhase::CreatingFile => DownloadAction::CreateFile,
            DownloadPhase::Reading => DownloadAction::Read(
                match self.target {
                    DownloadTarget::Bytes => BYTES_READ_BUFFER,
                    DownloadTarget::File => FILE_READ_BUFFER,
                },
            ),
            DownloadPhase::Writing(n) => DownloadAction::Write(*n),
            DownloadPhase::Done(_) => DownloadAction::Finished,
        }
    }

    /// The chunk that a download into a file asks to be written.
    pub fn chunk_to_write(&self) -> (r: &[u8])
        ensures
            r@ == self.chunk@,
    {
        self.chunk.as_slice()
    }

    /// The collected audio of a finished in-memory download, or its failure.
    pub fn into_bytes(self) -> (r: Option<Result<Vec<u8>, Error>>)
        ensures
            match self.phase {
                DownloadPhase::Done(Ok(_)) => r matches Some(Ok(b)) && b@ == self.bytes@,
                DownloadPhase::Done(Err(e)) => r == Some(Err::<Vec<u8>, Error>(e)),
                _ => r is None,
            },
    {
        match self.phase {
            DownloadPhase::Done(Ok(_)) => Some(Ok(self.bytes)),
            DownloadPhase::Done(Err(e)) => Some(Err(e)),
            _ => None,
        }
    }
}

impl PlaybackItem {
    /// Starts downloading the item's decrypted audio into memory.
    pub fn save_as_bytes(&self, bitrate: usize) -> (r: (Download, DownloadAction))
        requires
            self.item_id.id_type != ItemIdType::Unknown,
        ensures
            r.0@ == download_start(*self, bitrate, DownloadTarget::Bytes),
            r.1 == awaited(r.0@),
    {
        Download::start(self, bitrate, DownloadTarget::Bytes)
    }

    /// Starts downloading the item's decrypted audio into a file.
    pub fn save(&self, bitrate: usize) -> (r: (Download, DownloadAction))
        requires
            self.item_id.id_type != ItemIdType::Unknown,
        ensures
            r.0@ == download_start(*self, bitrate, DownloadTarget::File),
            r.1 == awaited(r.0@),
    {
        Download::start(self, bitrate, DownloadTarget::File)
    }

    /// Starts loading the item's track metadata (of type `T`).
    pub fn load_track<T>(&self) -> (r: (Lookup<ItemId, T, Error>, LookupAction<ItemId>))
        ensures
            r.0.key == self.item_id,
            r.0.phase == crate::lookup::LookupPhase::<T, Error>::ReadingCache,
            r.1 == LookupAction::ReadCache(self.item_id),
    {
        crate::lookup::load_track(self.item_id)
    }
}

/// What the host meets while downloading: the outcome of each preparation
/// step, the successive reads (`None`: the read failed; an empty chunk: the
/// audio ended) and the successive writes (the `i`-th write is of the chunk
/// that the `i`-th read gave).
pub struct AudioSource {
    pub path: Result<MediaPath, Error>,
    pub key: Result<(), Error>,
    pub opened: Result<(), Error>,
    pub decrypted: Result<(), Error>,
    pub created: Result<(), Error>,
    pub reads: Seq<Option<Seq<u8>>>,
    pub writes: Seq<Result<usize, Error>>,
}

/// How the host answers `a` from `src` when `k` reads have been answered;
/// reads past the end of `src.reads` give an empty chunk.
pub open spec fn source_answer(src: AudioSource, a: DownloadAction, k: nat) -> (DownloadEventView, nat) {
    match a {
        DownloadAction::ResolvePath(_, _) => (DownloadEventView::PathResolved(src.path), k),
        DownloadAction::LoadKey(_) => (DownloadEventView::KeyLoaded(src.key), k),
        DownloadAction::Open(_) => (DownloadEventView::Opened(src.opened), k),
        DownloadAction::Decrypt => (DownloadEventView::SourceReady(src.decrypted), k),
        DownloadAction::CreateFile => (DownloadEventView::FileCreated(src.created), k),
        DownloadAction::Read(_) => (
            DownloadEventView::Read(
                if k < src.reads.len() {
                    src.reads[k as int]
                } else {
                    Some(Seq::empty())
                },
            ),
            k + 1,
        ),
        DownloadAction::Write(_) => (DownloadEventView::Written(src.writes[k - 1]), k),
        DownloadAction::Finished => (DownloadEventView::Read(None), k),
    }
}

/// The state (and the number of reads answered) after `fuel` rounds in which
/// the host answers from `src`.
pub open spec fn drive(d: DownloadView, src: AudioSource, k: nat, fuel: nat) -> (DownloadView, nat)
    decreases fuel,
{
    if fuel == 0 {
        (d, k)
    } else {
        let (e, k2) = source_answer(src, awaited(d), k);
        drive(next(d, e), src, k2, (fuel - 1) as nat)
    }
}

/// The first failing preparation step of a download, if any.
pub open spec fn prepared(src: AudioSource, target: DownloadTarget) -> Result<(), Error> {
    match (src.path, src.key, src.opened, src.decrypted, src.created) {
        (Err(e), _, _, _, _) => Err(e),
        (_, Err(e), _, _, _) => Err(e),
        (_, _, Err(e), _, _) => Err(e),
        (_, _, _, Err(e), _) => Err(e),
        (_, _, _, _, Err(e)) if target == DownloadTarget::File => Err(e),
        _ => Ok(()),
    }
}

/// The audio that the reads give: the chunks up to the first read that fails
/// or gives nothing.
pub open spec fn collected(reads: Seq<Option<Seq<u8>>>) -> Seq<u8>
    decreases reads.len(),
{
    if reads.len() == 0 {
        Seq::empty()
    } else {
        match reads[0] {
            None => Seq::empty(),
            Some(c) => if c.len() == 0 {
                Seq::empty()
            } else {
                c + collected(reads.drop_first())
            },
        }
    }
}

/// Writing the chunks from read `k` on: how it ends, the numbers of bytes
/// read and written on the way, and the bytes that reach the file.
pub open spec fn file_run(src: AudioSource, k: nat) -> (Result<(), Error>, nat, nat, Seq<u8>)
    decreases src.reads.len() - k,
{
    if k >= src.reads.len() {
        (Ok(()), 0, 0, Seq::empty())
    } else {
        match src.reads[k as int] {
            None => (Ok(()), 0, 0, Seq::empty()),
            Some(c) => if c.len() == 0 {
                (Ok(()), 0, 0, Seq::empty())
            } else {
                match src.writes[k as int] {
                    Err(e) => (Err(e), 0, 0, Seq::empty()),
                    Ok(w) => {
                        let rest = file_run(src, k + 1);
                        (rest.0, c.len() + rest.1, (w as nat) + rest.2, c.take(taken(w, c.len())) + rest.3)
                    },
                }
            },
        }
    }
}

proof fn lemma_done_stays(d: DownloadView, src: AudioSource, k: nat, fuel: nat)
    requires
        d.phase is Done,
    ensures
        drive(d, src, k, fuel).0 == d,
    decreases fuel,
{
    if fuel > 0 {
        let (e, k2) = source_answer(src, awaited(d), k);
        assert(next(d, e) == d);
        lemma_done_stays(d, src, k2, (fuel - 1) as nat);
    }
}

proof fn lemma_bytes_reading(d: DownloadView, src: AudioSource, k: nat, fuel: nat)
    requires
        d.phase is Reading,
        d.target == DownloadTarget::Bytes,
        k <= src.reads.len(),
        fuel >= src.reads.len() - k + 1,
    ensures
        drive(d, src, k, fuel).0.phase == DownloadPhase::Done(Ok(())),
        drive(d, src, k, fuel).0.bytes == d.bytes + collected(src.reads.skip(k as int)),
    decreases src.reads.len() - k,
{
    let rest = src.reads.skip(k as int);
    let (e, k2) = source_answer(src, awaited(d), k);
    let d2 = next(d, e);
    assert(drive(d, src, k, fuel) == drive(d2, src, k2, (fuel - 1) as nat));
    if k == src.reads.len() {
        assert(rest.len() == 0);
        assert(d.bytes + collected(rest) =~= d.bytes);
        lemma_done_stays(d2, src, k2, (fuel - 1) as nat);
    } else {
        assert(rest[0] == src.reads[k as int]);
        assert(rest.drop_first() =~= src.reads.skip((k + 1) as int));
        match src.reads[k as int] {
            None => {
                assert(d.bytes + collected(rest) =~= d.bytes);
                lemma_done_stays(d2, src, k2, (fuel - 1) as nat);
            },
            Some(c) => {
                if c.len() == 0 {
                    assert(d.bytes + collected(rest) =~= d.bytes);
                    lemma_done_stays(d2, src, k2, (fuel - 1) as nat);
                } else {
                    lemma_bytes_reading(d2, src, k2, (fuel - 1) as nat);
                    assert(d.bytes + collected(rest) =~= d.bytes + c + collected(
                        src.reads.skip((k + 1) as int),
                    ));
                }
            },
        }
    }
}

/// An in-memory download ends with the first preparation failure, if any;
/// otherwise it succeeds, with exactly the audio the reads gave up to the
/// first read that fails or gives nothing (a failing read ends the download
/// without an error).
pub proof fn lemma_save_as_bytes(item: PlaybackItem, bitrate: usize, src: AudioSource)
    ensures
        ({
            let r = drive(
                download_start(item, bitrate, DownloadTarget::Bytes),
                src,
                0,
                src.reads.len() + 5,
            ).0;
            &&& r.phase == DownloadPhase::Done(prepared(src, DownloadTarget::Bytes))
            &&& prepared(src, DownloadTarget::Bytes) is Ok ==> r.bytes == collected(src.reads)
        }),
{
    let fuel: nat = src.reads.len() + 5;
    let d0 = download_start(item, bitrate, DownloadTarget::Bytes);
    let (e0, k0) = source_answer(src, awaited(d0), 0);
    let d1 = next(d0, e0);
    let (e1, k1) = source_answer(src, awaited(d1), k0);
    let d2 = next(d1, e1);
    let (e2, k2) = source_answer(src, awaited(d2), k1);
    let d3 = next(d2, e2);
    let (e3, k3) = source_answer(src, awaited(d3), k2);
    let d4 = next(d3, e3);
    assert(drive(d0, src, 0, fuel) == drive(d1, src, k0, (fuel - 1) as nat));
    assert(drive(d1, src, k0, (fuel - 1) as nat) == drive(d2, src, k1, (fuel - 2) as nat));
    assert(drive(d2, src, k1, (fuel - 2) as nat) == drive(d3, src, k2, (fuel - 3) as nat));
    assert(drive(d3, src, k2, (fuel - 3) as nat) == drive(d4, src, k3, (fuel - 4) as nat));
    if src.path is Err {
        lemma_done_stays(d1, src, k0, (fuel - 1) as nat);
    } else if src.key is Err {
        lemma_done_stays(d2, src, k1, (fuel - 2) as nat);
    } else if src.opened is Err {
        lemma_done_stays(d3, src, k2, (fuel - 3) as nat);
    } else if src.decrypted is Err {
        lemma_done_stays(d4, src, k3, (fuel - 4) as nat);
    } else {
        assert(src.reads.skip(0) =~= src.reads);
        assert(d4.bytes =~= Seq::<u8>::empty());
        lemma_bytes_reading(d4, src, k3, (fuel - 4) as nat);
        assert(d4.bytes + collected(src.reads) =~= collected(src.reads));
    }
}

proof fn lemma_file_reading(d: DownloadView, src: AudioSource, k: nat, fuel: nat)
    requires
        d.phase is Reading,
        d.target == DownloadTarget::File,
        k <= src.reads.len(),
        fuel >= 2 * (src.reads.len() - k) + 1,
        d.total_read + file_run(src, k).1 <= usize::MAX,
        d.total_write + file_run(src, k).2 <= usize::MAX,
    ensures
        drive(d, src, k, fuel).0.phase == DownloadPhase::Done(file_run(src, k).0),
        drive(d, src, k, fuel).0.total_read == d.total_read + file_run(src, k).1,
        drive(d, src, k, fuel).0.total_write == d.total_write + file_run(src, k).2,
        drive(d, src, k, fuel).0.written == d.written + file_run(src, k).3,
    decreases src.reads.len() - k,
{
    let (e, k2) = source_answer(src, awaited(d), k);
    let d2 = next(d, e);
    assert(drive(d, src, k, fuel) == drive(d2, src, k2, (fuel - 1) as nat));
    if k == src.reads.len() {
        lemma_done_stays(d2, src, k2, (fuel - 1) as nat);
        assert(d.written + file_run(src, k).3 =~= d.written);
    } else {
        match src.reads[k as int] {
            None => {
                lemma_done_stays(d2, src, k2, (fuel - 1) as nat);
                assert(d.written + file_run(src, k).3 =~= d.written);
            },
            Some(c) => {
                if c.len() == 0 {
                    lemma_done_stays(d2, src, k2, (fuel - 1) as nat);
                    assert(d.written + file_run(src, k).3 =~= d.written);
                } else {
                    let (e3, k3) = source_answer(src, awaited(d2), k2);
                    let d3 = next(d2, e3);
                    assert(k3 == k + 1);
                    assert(drive(d2, src, k2, (fuel - 1) as nat) == drive(
                        d3,
                        src,
                        k3,
                        (fuel - 2) as nat,
                    ));
                    match src.writes[k as int] {
                        Err(_) => {
                            lemma_done_stays(d3, src, k3, (fuel - 2) as nat);
                            assert(d.written + file_run(src, k).3 =~= d.written);
                        },
                        Ok(w) => {
                            lemma_file_reading(d3, src, k3, (fuel - 2) as nat);
                            assert(d3.written + file_run(src, k3).3 =~= d.written + file_run(
                                src,
                                k,
                            ).3);
                        },
                    }
                }
            },
        }
    }
}

/// A download into a file (whose decrypting reader is set up: without it
/// the download cannot go on) ends with the first preparation failure, if
/// any; otherwise each chunk read is written before the next read, the
/// first failing write ends it with that failure, a read that fails or gives
/// nothing ends it successfully, and the counters hold the bytes read and
/// the bytes the writes took (as long as they fit). The file holds, in
/// order, what each write took of its chunk (the chunks written before a
/// failing write, when one fails).
pub proof fn lemma_save(item: PlaybackItem, bitrate: usize, src: AudioSource)
    requires
        src.decrypted is Ok,
        file_run(src, 0).1 <= usize::MAX,
        file_run(src, 0).2 <= usize::MAX,
    ensures
        ({
            let r = drive(
                download_start(item, bitrate, DownloadTarget::File),
                src,
                0,
                2 * src.reads.len() + 6,
            ).0;
            &&& r.phase == DownloadPhase::Done(
                match prepared(src, DownloadTarget::File) {
                    Err(e) => Err(e),
                    Ok(_) => file_run(src, 0).0,
                },
            )
            &&& prepared(src, DownloadTarget::File) is Ok ==> r.total_read == file_run(src, 0).1
                && r.total_write == file_run(src, 0).2 && r.written == file_run(src, 0).3
        }),
{
    let fuel: nat = 2 * src.reads.len() + 6;
    let d0 = download_start(item, bitrate, DownloadTarget::File);
    let (e0, k0) = source_answer(src, awaited(d0), 0);
    let d1 = next(d0, e0);
    let (e1, k1) = source_answer(src, awaited(d1), k0);
    let d2 = next(d1, e1);
    let (e2, k2) = source_answer(src, awaited(d2), k1);
    let d3 = next(d2, e2);
    let (e3, k3) = source_answer(src, awaited(d3), k2);
    let d4 = next(d3, e3);
    let (e4, k4) = source_answer(src, awaited(d4), k3);
    let d5 = next(d4, e4);
    assert(drive(d0, src, 0, fuel) == drive(d1, src, k0, (fuel - 1) as nat));
    assert(drive(d1, src, k0, (fuel - 1) as nat) == drive(d2, src, k1, (fuel - 2) as nat));
    assert(drive(d2, src, k1, (fuel - 2) as nat) == drive(d3, src, k2, (fuel - 3) as nat));
    assert(drive(d3, src, k2, (fuel - 3) as nat) == drive(d4, src, k3, (fuel - 4) as nat));
    if src.path is Err {
        lemma_done_stays(d1, src, k0, (fuel - 1) as nat);
    } else if src.key is Err {
        lemma_done_stays(d2, src, k1, (fuel - 2) as nat);
    } else if src.opened is Err {
        lemma_done_stays(d3, src, k2, (fuel - 3) as nat);
    } else {
        assert(drive(d4, src, k3, (fuel - 4) as nat) == drive(d5, src, k4, (fuel - 5) as nat));
        if src.created is Err {
            lemma_done_stays(d5, src, k4, (fuel - 5) as nat);
        } else {
            lemma_file_reading(d5, src, k4, (fuel - 5) as nat);
        }
    }
}

/// Whether every write takes its whole chunk.
pub open spec fn writes_whole(src: AudioSource) -> bool {
    forall|k: int|
        #![trigger src.reads[k]]
        0 <= k < src.reads.len() ==> match src.reads[k] {
            Some(c) => c.len() > 0 ==> src.writes[k] == Ok::<usize, Error>(c.len() as usize),
            None => true,
        }
}

proof fn lemma_whole_writes(src: AudioSource, k: nat)
    requires
        writes_whole(src),
        k <= src.reads.len(),
        file_run(src, k).1 <= usize::MAX,
    ensures
        file_run(src, k).0 == Ok::<(), Error>(()),
        file_run(src, k).3 == collected(src.reads.skip(k as int)),
    decreases src.reads.len() - k,
{
    let rest = src.reads.skip(k as int);
    if k == src.reads.len() {
        assert(rest.len() == 0);
    } else {
        assert(rest[0] == src.reads[k as int]);
        assert(rest.drop_first() =~= src.reads.skip((k + 1) as int));
        match src.reads[k as int] {
            None => {},
            Some(c) => {
                if c.len() > 0 {
                    assert(src.writes[k as int] == Ok::<usize, Error>(c.len() as usize));
                    lemma_whole_writes(src, k + 1);
                    assert(c.take(c.len() as int) =~= c);
                }
            },
        }
    }
}

/// When every step succeeds and every write takes its whole chunk, a
/// download into a file succeeds and puts in the file exactly the audio
/// that an in-memory download of the same source gives.
pub proof fn lemma_file_holds_downloaded_audio(item: PlaybackItem, bitrate: usize, src: AudioSource)
    requires
        prepared(src, DownloadTarget::File) is Ok,
        writes_whole(src),
        file_run(src, 0).1 <= usize::MAX,
        file_run(src, 0).2 <= usize::MAX,
    ensures
        ({
            let f = drive(
                download_start(item, bitrate, DownloadTarget::File),
                src,
                0,
                2 * src.reads.len() + 6,
            ).0;
            let b = drive(
                download_start(item, bitrate, DownloadTarget::Bytes),
                src,
                0,
                src.reads.len() + 5,
            ).0;
            &&& f.phase == DownloadPhase::Done(Ok(()))
            &&& b.phase == DownloadPhase::Done(Ok(()))
            &&& f.written == b.bytes
        }),
{
    assert(src.path is Ok && src.key is Ok && src.opened is Ok && src.decrypted is Ok);
    assert(prepared(src, DownloadTarget::Bytes) is Ok);
    lemma_save(item, bitrate, src);
    lemma_save_as_bytes(item, bitrate, src);
    lemma_whole_writes(src, 0);
    assert(src.reads.skip(0) =~= src.reads);
}


/// A download that is reading always asks for a full buffer: 512000 bytes
/// in memory, 8192 * 16 = 131072 bytes into a file, whatever it has read,
/// collected or written so far; in particular it never asks for an empty
/// read (which would end it early).
pub proof fn lemma_reads_use_full_buffer(d: DownloadView)
    requires
        d.phase is Reading,
    ensures
        d.target == DownloadTarget::Bytes ==> awaited(d) == DownloadAction::Read(512000),
        d.target == DownloadTarget::File ==> awaited(d) == DownloadAction::Read(131072),
        awaited(d) matches DownloadAction::Read(n) && n > 0,
{
}

/// Every state of a download that goes on reading asks for a full buffer
/// again: after a non-empty chunk is collected in memory, or after a chunk
/// has been written to a file, the next read is of 512000 or 131072 bytes.
pub proof fn lemma_next_read_full_buffer(d: DownloadView, e: DownloadEventView)
    requires
        next(d, e).phase is Reading,
    ensures
        awaited(next(d, e)) == DownloadAction::Read(
            if d.target == DownloadTarget::Bytes {
                512000usize
            } else {
                131072usize
            },
        ),
{
}


/// What one read or write does to a download, stated on the chunk and the
/// counts themselves: in memory a non-empty chunk is appended to what was
/// collected and reading goes on; an empty or failed read ends the download
/// successfully with nothing more collected; into a file a non-empty chunk
/// is handed over to be written whole, and a write of `w` bytes adds the
/// first `w` bytes of that chunk to the file, `w` to the bytes written and
/// the chunk's length to the bytes read; a failed write ends the download
/// with that failure.
pub proof fn lemma_read_and_write_steps(d: DownloadView, c: Seq<u8>, w: usize, err: Error)
    requires
        d.total_read + d.chunk.len() <= usize::MAX,
        d.total_write + w <= usize::MAX,
    ensures
        (d.phase is Reading && d.target == DownloadTarget::Bytes && c.len() > 0) ==> next(
            d,
            DownloadEventView::Read(Some(c)),
        ).bytes == d.bytes + c && next(d, DownloadEventView::Read(Some(c))).phase is Reading,
        d.phase is Reading ==> next(d, DownloadEventView::Read(None)).phase == DownloadPhase::Done(
            Ok(()),
        ) && next(d, DownloadEventView::Read(None)).bytes == d.bytes,
        d.phase is Reading ==> next(d, DownloadEventView::Read(Some(Seq::empty()))).phase
            == DownloadPhase::Done(Ok(())) && next(
            d,
            DownloadEventView::Read(Some(Seq::empty())),
        ).bytes == d.bytes,
        (d.phase is Reading && d.target == DownloadTarget::File && c.len() > 0) ==> next(
            d,
            DownloadEventView::Read(Some(c)),
        ).chunk == c && next(d, DownloadEventView::Read(Some(c))).phase == DownloadPhase::Writing(
            c.len() as usize,
        ) && next(d, DownloadEventView::Read(Some(c))).written == d.written,
        (d.phase == DownloadPhase::Writing(d.chunk.len() as usize) && w <= d.chunk.len()) ==> ({
            let n = next(d, DownloadEventView::Written(Ok(w)));
            &&& n.written == d.written + d.chunk.subrange(0, w as int)
            &&& n.total_write == d.total_write + w
            &&& n.total_read == d.total_read + d.chunk.len()
            &&& n.phase is Reading
        }),
        d.phase is Writing ==> next(d, DownloadEventView::Written(Err(err))).phase
            == DownloadPhase::Done(Err(err)) && next(
            d,
            DownloadEventView::Written(Err(err)),
        ).written == d.written,
{
}

/// Each preparation step that fails ends the download with its failure.
pub proof fn lemma_preparation_failures(d: DownloadView, err: Error)
    ensures
        d.phase is ResolvingPath ==> next(d, DownloadEventView::PathResolved(Err(err))).phase
            == DownloadPhase::Done(Err(err)),
        d.phase is LoadingKey ==> next(d, DownloadEventView::KeyLoaded(Err(err))).phase
            == DownloadPhase::Done(Err(err)),
        d.phase is Opening ==> next(d, DownloadEventView::Opened(Err(err))).phase
            == DownloadPhase::Done(Err(err)),
        d.phase is Decrypting ==> next(d, DownloadEventView::SourceReady(Err(err))).phase
            == DownloadPhase::Done(Err(err)),
        d.phase is CreatingFile ==> next(d, DownloadEventView::FileCreated(Err(err))).phase
            == DownloadPhase::Done(Err(err)),
{
}

} // verus!
