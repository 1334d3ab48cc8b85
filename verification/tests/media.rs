use mesozoic::ble::MyVec;
use mesozoic::interface::MediaControl;
use mesozoic::media::{
    encode_remote_command, encode_track_subscription, parse_entity_update, EntityUpdate,
    MediaAssembler, TrackAttribute,
};

fn notification(entity: u8, attribute: u8, text: &[u8]) -> MyVec {
    let mut bytes = vec![entity, attribute, 0];
    bytes.extend_from_slice(text);
    MyVec::from_gatt(&bytes)
}

#[test]
fn artist_then_title_makes_a_record() {
    let mut assembler = MediaAssembler::new();
    assert!(assembler.on_notification(&notification(2, 0, b"A")).is_none());
    let record = assembler.on_notification(&notification(2, 2, b"T")).unwrap();
    assert_eq!(record.artist.as_str(), "A");
    assert_eq!(record.album.as_str(), "");
    assert_eq!(record.title.as_str(), "T");
}

#[test]
fn only_the_title_hands_a_record_over() {
    let mut assembler = MediaAssembler::new();
    assert!(assembler.on_notification(&notification(2, 0, b"artist")).is_none());
    assert!(assembler.on_notification(&notification(2, 1, b"album")).is_none());
    assert!(assembler.on_notification(&notification(2, 3, b"123.4")).is_none());
    assert!(assembler.on_notification(&notification(2, 9, b"what")).is_none());
    assert!(assembler.on_notification(&notification(0, 2, b"player")).is_none());
    assert!(assembler.on_notification(&notification(1, 2, b"queue")).is_none());
    let record = assembler.on_notification(&notification(2, 2, b"title")).unwrap();
    assert_eq!(record.artist.as_str(), "artist");
    assert_eq!(record.album.as_str(), "album");
    assert_eq!(record.title.as_str(), "title");
}

#[test]
fn attributes_that_did_not_change_are_kept() {
    let mut assembler = MediaAssembler::new();
    assembler.on_notification(&notification(2, 0, b"first artist"));
    assembler.on_notification(&notification(2, 1, b"first album"));
    assembler.on_notification(&notification(2, 2, b"first title"));
    // The host leaves out what did not change.
    let record = assembler.on_notification(&notification(2, 2, b"second title")).unwrap();
    assert_eq!(record.artist.as_str(), "first artist");
    assert_eq!(record.album.as_str(), "first album");
    assert_eq!(record.title.as_str(), "second title");
    assembler.on_notification(&notification(2, 0, b"third artist"));
    let record = assembler.on_notification(&notification(2, 2, b"third title")).unwrap();
    assert_eq!(record.artist.as_str(), "third artist");
    assert_eq!(record.album.as_str(), "first album");
    assert_eq!(record.title.as_str(), "third title");
}

#[test]
fn invalid_text_is_discarded() {
    let mut assembler = MediaAssembler::new();
    assembler.on_notification(&notification(2, 0, b"artist"));
    assert!(assembler.on_notification(&notification(2, 0, &[0xFF, 0xFE])).is_none());
    // A title that is not valid text hands no record over.
    assert!(assembler.on_notification(&notification(2, 2, &[b'a', 0xC3])).is_none());
    let record = assembler.on_notification(&notification(2, 2, b"title")).unwrap();
    assert_eq!(record.artist.as_str(), "artist");
    assert_eq!(record.title.as_str(), "title");
}

#[test]
fn flags_are_passed_over() {
    let a = parse_entity_update(&[2, 0, 0x00, b'x']);
    let b = parse_entity_update(&[2, 0, 0xFF, b'x']);
    match (a, b) {
        (
            EntityUpdate::Track { attribute: TrackAttribute::Artist, value: first },
            EntityUpdate::Track { attribute: TrackAttribute::Artist, value: second },
        ) => {
            assert_eq!(first.as_str(), "x");
            assert_eq!(second.as_str(), "x");
        }
        _ => panic!("both are the artist"),
    }
}

#[test]
fn notifications_are_read_by_entity_and_attribute() {
    assert!(matches!(parse_entity_update(&[]), EntityUpdate::UnknownEntity));
    assert!(matches!(parse_entity_update(&[0, 2, 0, b'x']), EntityUpdate::UnknownEntity));
    assert!(matches!(parse_entity_update(&[3]), EntityUpdate::UnknownEntity));
    assert!(matches!(parse_entity_update(&[2]), EntityUpdate::TooShort));
    assert!(matches!(parse_entity_update(&[2, 2]), EntityUpdate::TooShort));
    assert!(matches!(parse_entity_update(&[2, 1, 0, 0x80]), EntityUpdate::InvalidText));
    let attributes = [
        (0u8, TrackAttribute::Artist),
        (1, TrackAttribute::Album),
        (2, TrackAttribute::Title),
        (3, TrackAttribute::Duration),
        (4, TrackAttribute::Unknown),
        (255, TrackAttribute::Unknown),
    ];
    for (id, expected) in attributes.iter() {
        match parse_entity_update(&[2, *id, 0, b'o', b'k']) {
            EntityUpdate::Track { attribute, value } => {
                assert_eq!(attribute, *expected);
                assert_eq!(value.as_str(), "ok");
            }
            _ => panic!("a track attribute"),
        }
    }
}

#[test]
fn empty_and_long_texts_are_taken() {
    match parse_entity_update(&[2, 2, 0]) {
        EntityUpdate::Track { attribute: TrackAttribute::Title, value } => {
            assert_eq!(value.as_str(), "")
        }
        _ => panic!("an empty title"),
    }
    let mut bytes = vec![2u8, 2, 0];
    bytes.extend(std::iter::repeat(b'z').take(509));
    match parse_entity_update(&bytes) {
        EntityUpdate::Track { attribute: TrackAttribute::Title, value } => {
            assert_eq!(value.len(), 509);
            assert!(value.as_str().bytes().all(|b| b == b'z'));
        }
        _ => panic!("a long title"),
    }
}

#[test]
fn text_of_several_bytes_per_character_is_decoded() {
    let text = "Beyoncé — 音楽";
    let mut bytes = vec![2u8, 0, 0];
    bytes.extend_from_slice(text.as_bytes());
    match parse_entity_update(&bytes) {
        EntityUpdate::Track { attribute: TrackAttribute::Artist, value } => {
            assert_eq!(value.as_str(), text)
        }
        _ => panic!("the artist"),
    }
}

#[test]
fn only_toggle_has_a_wire_code() {
    assert_eq!(encode_remote_command(MediaControl::TogglePlayPause), Some(2));
    assert_eq!(encode_remote_command(MediaControl::NextTrack), None);
    assert_eq!(encode_remote_command(MediaControl::PreviousTrack), None);
    assert_eq!(encode_remote_command(MediaControl::VolumeUp), None);
    assert_eq!(encode_remote_command(MediaControl::VolumeDown), None);
}

#[test]
fn subscription_names_artist_album_and_title_of_the_track() {
    assert_eq!(encode_track_subscription().to_gatt(), &[2, 0, 1, 2]);
}

#[test]
fn text_longer_than_an_attribute_is_discarded() {
    let mut bytes = vec![2u8, 2, 0];
    bytes.extend(std::iter::repeat(b'z').take(512));
    assert!(matches!(parse_entity_update(&bytes), EntityUpdate::Track { .. }));
    bytes.push(b'z');
    assert!(matches!(parse_entity_update(&bytes), EntityUpdate::InvalidText));
}
