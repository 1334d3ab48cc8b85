//! The media protocol of the host: the notifications that report the track
//! attribute by attribute, their reassembly into one record, and the
//! messages that the device writes back.

use crate::ble::MyVec;
use crate::interface::{AppleMediaServiceData, AppleMediaServiceString, MediaControl, MediaView};
use crate::text::{decode_text, decoded, empty_text, text_of};
use vstd::prelude::*;
use vstd::slice::slice_subrange;

verus! {

/// The entity of the host that stands for the track.
pub const ENTITY_ID_TRACK: u8 = 2;

pub const TRACK_ATTRIBUTE_ID_ARTIST: u8 = 0;

pub const TRACK_ATTRIBUTE_ID_ALBUM: u8 = 1;

pub const TRACK_ATTRIBUTE_ID_TITLE: u8 = 2;

pub const TRACK_ATTRIBUTE_ID_DURATION: u8 = 3;

/// The command that toggles between play and pause.
pub const REMOTE_COMMAND_ID_TOGGLE_PLAY_PAUSE: u8 = 2;

/// Bytes of a notification that come before its text: the entity, the
/// attribute and the flags.
pub const ENTITY_UPDATE_HEADER_LEN: usize = 3;

/// An attribute of the track.
#[derive(Clone, Copy, Debug, PartialEq, Eq, Structural)]
pub enum TrackAttribute {
    Artist,
    Album,
    Title,
    Duration,
    /// An attribute that this device does not know.
    Unknown,
}

/// The attribute that an identifier on the wire stands for.
pub open spec fn track_attribute(id: u8) -> TrackAttribute {
    if id == TRACK_ATTRIBUTE_ID_ARTIST {
        TrackAttribute::Artist
    } else if id == TRACK_ATTRIBUTE_ID_ALBUM {
        TrackAttribute::Album
    } else if id == TRACK_ATTRIBUTE_ID_TITLE {
        TrackAttribute::Title
    } else if id == TRACK_ATTRIBUTE_ID_DURATION {
        TrackAttribute::Duration
    } else {
        TrackAttribute::Unknown
    }
}

/// What one notification of the host says.
#[derive(Clone, Copy, Debug)]
pub enum EntityUpdate {
    /// The value of an attribute of the track.
    Track { attribute: TrackAttribute, value: AppleMediaServiceString },
    /// An attribute of the track whose text is not valid UTF-8, or is
    /// longer than the text of an attribute may be.
    InvalidText,
    /// A notification that is too short to hold an attribute of the track.
    TooShort,
    /// A notification about another entity than the track.
    UnknownEntity,
}

/// What one notification of the host says, as plain values.
pub enum EntityUpdateModel {
    Track { attribute: TrackAttribute, value: Seq<char> },
    InvalidText,
    TooShort,
    UnknownEntity,
}

impl View for EntityUpdate {
    type V = EntityUpdateModel;

    open spec fn view(&self) -> EntityUpdateModel {
        match *self {
            EntityUpdate::Track { attribute, value } => EntityUpdateModel::Track {
                attribute,
                value: text_of(value),
            },
            EntityUpdate::InvalidText => EntityUpdateModel::InvalidText,
            EntityUpdate::TooShort => EntityUpdateModel::TooShort,
            EntityUpdate::UnknownEntity => EntityUpdateModel::UnknownEntity,
        }
    }
}

/// What the bytes of a notification say: byte 0 names the entity, byte 1
/// the attribute, byte 2 holds flags that are passed over, and the rest is
/// the text of the attribute in UTF-8, of 512 bytes at most.
pub open spec fn entity_update(bytes: Seq<u8>) -> EntityUpdateModel {
    if bytes.len() == 0 || bytes[0] != ENTITY_ID_TRACK {
        EntityUpdateModel::UnknownEntity
    } else if bytes.len() < ENTITY_UPDATE_HEADER_LEN {
        EntityUpdateModel::TooShort
    } else {
        match decoded(bytes.skip(ENTITY_UPDATE_HEADER_LEN as int)) {
            Some(value) => EntityUpdateModel::Track { attribute: track_attribute(bytes[1]), value },
            None => EntityUpdateModel::InvalidText,
        }
    }
}

impl EntityUpdateModel {
    /// Whether the update ends a record: only the title does.
    pub open spec fn completes_record(self) -> bool {
        self matches EntityUpdateModel::Track { attribute, .. } && attribute
            == TrackAttribute::Title
    }
}

impl MediaView {
    /// The record in which no attribute has been reported.
    pub open spec fn blank() -> MediaView {
        MediaView {
            artist: Seq::<char>::empty(),
            album: Seq::<char>::empty(),
            title: Seq::<char>::empty(),
        }
    }

    /// The record after an update: the artist, the album or the title takes
    /// the reported value, and any other update changes nothing.
    pub open spec fn updated(self, update: EntityUpdateModel) -> MediaView {
        match update {
            EntityUpdateModel::Track { attribute, value } => match attribute {
                TrackAttribute::Artist => MediaView { artist: value, ..self },
                TrackAttribute::Album => MediaView { album: value, ..self },
                TrackAttribute::Title => MediaView { title: value, ..self },
                _ => self,
            },
            _ => self,
        }
    }
}

/// Reads what a notification says.
pub fn parse_entity_update(notification: &[u8]) -> (update: EntityUpdate)
    ensures
        update@ == entity_update(notification@),
{
    if notification.len() == 0 || notification[0] != ENTITY_ID_TRACK {
        return EntityUpdate::UnknownEntity;
    }
    if notification.len() < ENTITY_UPDATE_HEADER_LEN {
        return EntityUpdate::TooShort;
    }
    let attribute_id = notification[1];
    // Byte 2 holds flags, one of which says that the value was cut short.
    // They are passed over.
    let value = slice_subrange(notification, ENTITY_UPDATE_HEADER_LEN, notification.len());
    assert(value@ == notification@.skip(ENTITY_UPDATE_HEADER_LEN as int));
    match decode_text(value) {
        Some(value) => {
            let attribute = if attribute_id == TRACK_ATTRIBUTE_ID_ARTIST {
                TrackAttribute::Artist
            } else if attribute_id == TRACK_ATTRIBUTE_ID_ALBUM {
                TrackAttribute::Album
            } else if attribute_id == TRACK_ATTRIBUTE_ID_TITLE {
                TrackAttribute::Title
            } else if attribute_id == TRACK_ATTRIBUTE_ID_DURATION {
                TrackAttribute::Duration
            } else {
                TrackAttribute::Unknown
            };
            EntityUpdate::Track { attribute, value }
        },
        None => EntityUpdate::InvalidText,
    }
}

/// Puts the record of the track together from the notifications of the
/// host, which report one attribute each and leave out what has not changed.
#[derive(Clone, Copy, Debug)]
pub struct MediaAssembler {
    artist: AppleMediaServiceString,
    album: AppleMediaServiceString,
    title: AppleMediaServiceString,
}

impl View for MediaAssembler {
    type V = MediaView;

    closed spec fn view(&self) -> MediaView {
        MediaView {
            artist: text_of(self.artist),
            album: text_of(self.album),
            title: text_of(self.title),
        }
    }
}

impl MediaAssembler {
    /// An assembler to which no attribute has been reported.
    pub fn new() -> (assembler: MediaAssembler)
        ensures
            assembler@ == MediaView::blank(),
    {
        MediaAssembler { artist: empty_text(), album: empty_text(), title: empty_text() }
    }

    /// Takes one update. The title ends a record: the record is returned
    /// with the artist and the album as they were reported last. No other
    /// update returns a record.
    pub fn apply(&mut self, update: EntityUpdate) -> (record: Option<AppleMediaServiceData>)
        ensures
            final(self)@ == old(self)@.updated(update@),
            record is Some <==> update@.completes_record(),
            record matches Some(data) ==> data@ == final(self)@,
    {
        match update {
            EntityUpdate::Track { attribute, value } => match attribute {
                TrackAttribute::Artist => {
                    self.artist = value;
                    None
                },
                TrackAttribute::Album => {
                    self.album = value;
                    None
                },
                TrackAttribute::Title => {
                    self.title = value;
                    Some(
                        AppleMediaServiceData {
                            artist: self.artist,
                            album: self.album,
                            title: self.title,
                        },
                    )
                },
                _ => None,
            },
            _ => None,
        }
    }

    /// Takes one notification of the host, as [`MediaAssembler::apply`]
    /// takes what it says.
    pub fn on_notification(&mut self, notification: &MyVec) -> (record: Option<
        AppleMediaServiceData,
    >)
        requires
            notification.wf(),
        ensures
            final(self)@ == old(self)@.updated(entity_update(notification@)),
            record is Some <==> entity_update(notification@).completes_record(),
            record matches Some(data) ==> data@ == final(self)@,
    {
        let update = parse_entity_update(notification.to_gatt());
        self.apply(update)
    }
}

/// The byte that stands for a transport command on the wire. Only the
/// toggle between play and pause has one.
pub open spec fn remote_command_id(command: MediaControl) -> Option<u8> {
    match command {
        MediaControl::TogglePlayPause => Some(REMOTE_COMMAND_ID_TOGGLE_PLAY_PAUSE),
        _ => None,
    }
}

/// The byte to write to the host for a transport command, where the
/// command has one.
pub fn encode_remote_command(command: MediaControl) -> (id: Option<u8>)
    ensures
        id == remote_command_id(command),
{
    match command {
        MediaControl::TogglePlayPause => Some(REMOTE_COMMAND_ID_TOGGLE_PLAY_PAUSE),
        _ => None,
    }
}

/// The message that asks the host to report the artist, the album and the
/// title of the track.
pub open spec fn track_subscription() -> Seq<u8> {
    seq![
        ENTITY_ID_TRACK,
        TRACK_ATTRIBUTE_ID_ARTIST,
        TRACK_ATTRIBUTE_ID_ALBUM,
        TRACK_ATTRIBUTE_ID_TITLE,
    ]
}

/// Builds the message that asks the host to report the artist, the album
/// and the title of the track.
pub fn encode_track_subscription() -> (message: MyVec)
    ensures
        message.wf(),
        message@ == track_subscription(),
{
    let bytes: [u8; 4] = [
        ENTITY_ID_TRACK,
        TRACK_ATTRIBUTE_ID_ARTIST,
        TRACK_ATTRIBUTE_ID_ALBUM,
        TRACK_ATTRIBUTE_ID_TITLE,
    ];
    let message = MyVec::from_gatt(bytes.as_slice());
    assert(message@ =~= track_subscription());
    message
}

/// A record is handed over by the title and by nothing else, and an update
/// of the artist or the album leaves the title as it was.
pub proof fn lemma_only_title_completes(record: MediaView, update: EntityUpdateModel)
    ensures
        update.completes_record() ==> record.updated(update).title == update->value,
        !update.completes_record() ==> record.updated(update).title == record.title,
        update.completes_record() ==> record.updated(update).artist == record.artist,
        update.completes_record() ==> record.updated(update).album == record.album,
{
}

/// The artist reported first and the title reported after it, with no album
/// in between, make a record with that artist, that title and no album.
pub proof fn lemma_artist_then_title(artist: Seq<char>, title: Seq<char>)
    ensures
        ({
            let first = EntityUpdateModel::Track { attribute: TrackAttribute::Artist, value: artist };
            let second = EntityUpdateModel::Track { attribute: TrackAttribute::Title, value: title };
            &&& !first.completes_record()
            &&& second.completes_record()
            &&& MediaView::blank().updated(first).updated(second) == (MediaView {
                artist,
                album: Seq::<char>::empty(),
                title,
            })
        }),
{
}

} // verus!
