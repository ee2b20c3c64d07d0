# spotify_ripper

Verified decision logic of a Spotify track downloader and of the small web
service around it, written in Verus.

- `src/item.rs`: item and file identifiers, playback items, base-62 ids.
- `src/lookup.rs`: the cache-then-fetch lookup of tracks, episodes, audio
  keys and the user's country, and the law it obeys.
- `src/media_path.rs`: resolving an item to its media file, with the
  regional fall-back to an alternative track, and the law that pins the
  result down for any answers of the Spotify side.
- `src/download.rs`: downloading into memory or into a file, with the laws
  on the collected audio and the byte counters.
- `src/cli.rs`: the command-line downloader's item and file naming.
- `src/ripper.rs`: the service's request handling (push messages, download
  requests, album search, download links).
- `app/`: plain Rust drivers that run these machines against a Spotify
  client, files and the Cloud services, and the axum routes.
- `tests/`: tests on concrete values.
