//! Identifiers of Spotify items, media files and playback items.

use vstd::prelude::*;
use vstd::string::StringSliceAdditionalSpecFns;

verus! {

/// The kind of item an identifier names.
#[derive(Clone, Copy, Debug, PartialEq, Eq, Hash, Structural)]
pub enum ItemIdType {
    Track,
    Podcast,
    Unknown,
}

/// A Spotify item identifier: a 128-bit number and the kind of item.
#[derive(Clone, Copy, Debug, PartialEq, Eq, Hash, Structural)]
pub struct ItemId {
    pub id: u128,
    pub id_type: ItemIdType,
}

/// The value of a byte as a base-62 digit of a Spotify identifier
/// (`0-9` are 0..9, `a-z` are 10..35, `A-Z` are 36..61).
pub open spec fn base62_digit(b: u8) -> Option<nat> {
    if 48 <= b <= 57 {
        Some((b - 48) as nat)
    } else if 97 <= b <= 122 {
        Some((b - 87) as nat)
    } else if 65 <= b <= 90 {
        Some((b - 29) as nat)
    } else {
        None
    }
}

/// The number that a string of base-62 digits denotes, most significant
/// digit first; `None` if some byte is not a digit.
pub open spec fn base62_value(s: Seq<u8>) -> Option<nat>
    decreases s.len(),
{
    if s.len() == 0 {
        Some(0)
    } else {
        match (base62_value(s.drop_last()), base62_digit(s.last())) {
            (Some(v), Some(d)) => Some(v * 62 + d),
            _ => None,
        }
    }
}

/// One more than the largest identifier number.
pub open spec fn id_bound() -> nat {
    0x1_0000_0000_0000_0000_0000_0000_0000_0000nat
}

/// The value of a prefix never exceeds the value of the whole string, and an
/// invalid prefix makes the whole string invalid.
proof fn lemma_base62_prefix(s: Seq<u8>, j: int)
    requires
        0 <= j <= s.len(),
    ensures
        base62_value(s.take(j)) is None ==> base62_value(s) is None,
        base62_value(s.take(j)) matches Some(u) ==> (base62_value(s) matches Some(v) ==> u <= v),
    decreases s.len() - j,
{
    if j < s.len() {
        lemma_base62_prefix(s, j + 1);
        assert(s.take(j + 1).drop_last() =~= s.take(j));
        assert(s.take(j + 1).last() == s[j]);
    } else {
        assert(s.take(j) =~= s);
    }
}

fn base62_digit_of(b: u8) -> (r: Option<u128>)
    ensures
        match base62_digit(b) {
            Some(d) => r == Some(d as u128),
            None => r is None,
        },
{
    if 48 <= b && b <= 57 {
        Some((b - 48) as u128)
    } else if 97 <= b && b <= 122 {
        Some((b - 87) as u128)
    } else if 65 <= b && b <= 90 {
        Some((b - 29) as u128)
    } else {
        None
    }
}

impl ItemId {
    /// Parses the base-62 form of an identifier (as in Spotify URIs).
    /// Gives `None` when a character is not a base-62 digit, or when the
    /// number does not fit in 128 bits.
    pub fn from_base62(id: &str, id_type: ItemIdType) -> (r: Option<ItemId>)
        ensures
            r is Some <==> (base62_value(id.spec_bytes()) matches Some(v) && v < id_bound()),
            r matches Some(item) ==> item.id_type == id_type && base62_value(id.spec_bytes())
                == Some(item.id as nat),
    {
        let bytes = id.as_bytes();
        let ghost s = bytes@;
        let mut n: u128 = 0;
        let mut i: usize = 0;
        assert(s.take(0) =~= Seq::<u8>::empty());
        while i < bytes.len()
            invariant
                s == bytes@,
                s == id.spec_bytes(),
                0 <= i <= s.len(),
                base62_value(s.take(i as int)) == Some(n as nat),
            decreases s.len() - i,
        {
            assert(s.take(i + 1).drop_last() =~= s.take(i as int));
            assert(s.take(i + 1).last() == s[i as int]);
            let d: u128 = match base62_digit_of(bytes[i]) {
                Some(d) => d,
                None => {
                    proof {
                        lemma_base62_prefix(s, i + 1);
                    }
                    return None;
                },
            };
            let m: u128 = match n.checked_mul(62) {
                Some(m) => m,
                None => {
                    proof {
                        lemma_base62_prefix(s, i + 1);
                    }
                    return None;
                },
            };
            n = match m.checked_add(d) {
                Some(x) => x,
                None => {
                    proof {
                        lemma_base62_prefix(s, i + 1);
                    }
                    return None;
                },
            };
            i = i + 1;
        }
        assert(s.take(i as int) =~= s);
        Some(ItemId { id: n, id_type })
    }
}

/// A media file identifier (the 20 raw bytes Spotify uses).
#[derive(Clone, Copy, Debug)]
pub struct FileId(pub [u8; 20]);

/// Format of an audio file.
#[derive(Clone, Copy, Debug, PartialEq, Eq, Structural)]
pub enum AudioFormat {
    OggVorbis,
    Mp3,
    Unsupported,
}

/// Where the audio of an item is found: the item it stands for, the file on
/// the CDN and what that file holds.
#[derive(Clone, Copy, Debug)]
pub struct MediaPath {
    pub item_id: ItemId,
    pub file_id: FileId,
    pub file_format: AudioFormat,
    pub duration_ms: u64,
}

/// Loudness normalisation applied on playback.
#[derive(Clone, Copy, Debug, PartialEq, Eq, Structural)]
pub enum NormalizationLevel {
    Disabled,
    Track,
    Album,
}

/// An item to download or play, with its normalisation level.
#[derive(Clone, Copy, Debug, PartialEq, Eq, Structural)]
pub struct PlaybackItem {
    pub item_id: ItemId,
    pub norm_level: NormalizationLevel,
}

/// The failures the downloader reports. `MediaFileNotFound` is decided
/// here; `Failed` carries a failure that the host met while loading or
/// reading (its message).
#[derive(Clone, Debug)]
pub enum Error {
    MediaFileNotFound,
    Failed(String),
}

/// The bitrate (kbit/s) that playback configuration asks for by default.
pub const DEFAULT_BITRATE: usize = 320;


/// The base-62 digits are `0`-`9` with values 0 to 9, `a`-`z` with values
/// 10 to 35 and `A`-`Z` with values 36 to 61 (the bytes of those characters
/// are 48-57, 97-122 and 65-90); no other byte is a digit.
pub proof fn lemma_base62_alphabet()
    ensures
        forall|b: u8| 48 <= b < 48 + 10 ==> #[trigger] base62_digit(b) == Some((b - 48) as nat),
        forall|b: u8|
            97 <= b < 97 + 26 ==> #[trigger] base62_digit(b) == Some(10 + (b - 97) as nat),
        forall|b: u8|
            65 <= b < 65 + 26 ==> #[trigger] base62_digit(b) == Some(36 + (b - 65) as nat),
        forall|b: u8|
            !(48 <= b < 58 || 97 <= b < 123 || 65 <= b < 91) ==> #[trigger] base62_digit(b) is None,
        forall|b1: u8, b2: u8|
            #![trigger base62_digit(b1), base62_digit(b2)]
            base62_digit(b1) is Some && b1 != b2 ==> base62_digit(b1) != base62_digit(b2),
        forall|b: u8| #[trigger] base62_digit(b) matches Some(d) ==> d < 62,
{
}

/// A string of digits denotes its digits read in base 62: appending a digit
/// `d` to a valid id of value `v` gives `62 * v + d`.
pub proof fn lemma_base62_append(s: Seq<u8>, b: u8)
    ensures
        match (base62_value(s), base62_digit(b)) {
            (Some(v), Some(d)) => base62_value(s.push(b)) == Some(62 * v + d),
            _ => true,
        },
        base62_digit(b) is None ==> base62_value(s.push(b)) is None,
{
    assert(s.push(b).drop_last() =~= s);
}

} // verus!
