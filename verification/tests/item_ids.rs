use spotify_ripper::item::{ItemId, ItemIdType, DEFAULT_BITRATE};

#[test]
fn base62_track_id_parses() {
    let id = ItemId::from_base62("4uLU6hMCjMI75M1A2tKUQC", ItemIdType::Track).unwrap();
    assert_eq!(id.id, 196373991439130863212091700994220317246u128);
    assert_eq!(id.id_type, ItemIdType::Track);
}

#[test]
fn base62_digit_order() {
    assert_eq!(ItemId::from_base62("10", ItemIdType::Podcast).unwrap().id, 62);
    assert_eq!(ItemId::from_base62("zZ", ItemIdType::Podcast).unwrap().id, 35 * 62 + 61);
    assert_eq!(ItemId::from_base62("", ItemIdType::Unknown).unwrap().id, 0);
}

#[test]
fn base62_rejects_other_characters() {
    assert!(ItemId::from_base62("4uLU6hMC-MI75M1A2tKUQC", ItemIdType::Track).is_none());
    assert!(ItemId::from_base62("é", ItemIdType::Track).is_none());
}

#[test]
fn base62_rejects_numbers_over_128_bits() {
    let too_big = "ZZZZZZZZZZZZZZZZZZZZZZ";
    assert!(ItemId::from_base62(too_big, ItemIdType::Track).is_none());
}

#[test]
fn default_bitrate_is_320() {
    assert_eq!(DEFAULT_BITRATE, 320);
}
