//! Verified decision logic of a Spotify track downloader: identifiers and
//! playback items, the cache-then-fetch lookups, the resolution of an item
//! to a downloadable media file (with regional fall-back to an alternative
//! track), the download loops, and the request handling of the ripper
//! service.
//!
//! Every step that talks to the outside world (the Spotify session, the
//! on-disk cache, the CDN, files, Cloud services) is performed by the host;
//! the machines here decide what to do next from what the host reports.

pub mod item;
pub mod lookup;
pub mod media_path;
pub mod download;
pub mod cli;
pub mod ripper;
