//! Values exchanged between the platform and the application.

use crate::text::text_of;
use arrayvec::ArrayString;
use vstd::prelude::*;
use vstd::std_specs::convert::TryFromSpecImpl;

verus! {

/// Width of the display in pixels.
pub const LCD_W: u16 = 240;

/// Height of the display in pixels.
pub const LCD_H: u16 = 240;

/// One input to the application.
pub enum AppInput {
    /// The host reported the track that is playing.
    AppleMedia(AppleMediaServiceData),
    /// The power state was sampled.
    Battery(BatteryData),
    /// The host specified the time of day.
    Time(TimeOfDay),
    /// The user touched the display.
    Touch(Touch),
    /// The user pressed the button.
    ButtonPressed,
    /// The periodic request to render.
    Tick,
    /// The platform met a fault that it cannot recover from.
    CriticalError(&'static str),
}

/// What the application asks the platform to do.
#[derive(Clone, Copy, Debug, PartialEq, Eq, Structural)]
pub enum AppOutput {
    /// Send a transport command to the host.
    MediaControl(MediaControl),
}

/// A transport command for the media player of the host.
#[derive(Clone, Copy, Debug, PartialEq, Eq, Structural)]
pub enum MediaControl {
    TogglePlayPause,
    NextTrack,
    PreviousTrack,
    VolumeUp,
    VolumeDown,
}

/// Text of one attribute of a track.
pub type AppleMediaServiceString = ArrayString<512>;

/// The track that is playing on the host.
#[derive(Clone, Copy, Debug, PartialEq, Eq)]
pub struct AppleMediaServiceData {
    pub artist: AppleMediaServiceString,
    pub album: AppleMediaServiceString,
    pub title: AppleMediaServiceString,
}

/// The track that is playing, as plain text.
pub struct MediaView {
    pub artist: Seq<char>,
    pub album: Seq<char>,
    pub title: Seq<char>,
}

impl View for AppleMediaServiceData {
    type V = MediaView;

    open spec fn view(&self) -> MediaView {
        MediaView {
            artist: text_of(self.artist),
            album: text_of(self.album),
            title: text_of(self.title),
        }
    }
}

/// The power state of the device.
#[derive(Clone, Copy, Debug, PartialEq, Eq, Structural)]
pub struct BatteryData {
    /// Whether the charger is connected.
    pub charging: bool,
    /// The battery voltage in millivolts.
    pub millivolts: u16,
}

/// A wall-clock time of day.
///
/// The fields are public and may hold any byte; see [`TimeOfDay::is_valid`]
/// for the values that denote a time of day.
#[derive(Clone, Copy, Debug, PartialEq, Eq, Structural)]
pub struct TimeOfDay {
    pub hours: u8,
    pub minutes: u8,
    pub seconds: u8,
}

impl TimeOfDay {
    /// Hours in 0..=23, minutes and seconds in 0..=59.
    pub open spec fn is_valid(self) -> bool {
        &&& self.hours < 24
        &&& self.minutes < 60
        &&& self.seconds < 60
    }

    /// Midnight.
    pub open spec fn midnight() -> TimeOfDay {
        TimeOfDay { hours: 0, minutes: 0, seconds: 0 }
    }
}

impl Default for TimeOfDay {
    fn default() -> (t: TimeOfDay)
        ensures
            t == TimeOfDay::midnight(),
    {
        TimeOfDay { hours: 0, minutes: 0, seconds: 0 }
    }
}

/// One touch on the display.
#[derive(Clone, Copy, Debug, PartialEq, Eq, Structural)]
pub struct Touch {
    pub gesture: Gesture,
    pub event_type: TouchType,
    /// X coordinate, from 0 at the left to 239 at the right.
    pub x: u8,
    /// Y coordinate, from 0 at the top to 239 at the bottom.
    pub y: u8,
}

/// What the finger did, as the touch controller reports it.
#[derive(Clone, Copy, Debug, PartialEq, Eq, Structural)]
pub enum Gesture {
    SlideDown,
    SlideUp,
    SlideLeft,
    SlideRight,
    SingleClick,
    /// The controller saw no gesture.
    NoGesture,
    DoubleClick,
    LongPress,
}

/// The phase of a touch.
#[derive(Clone, Copy, Debug, PartialEq, Eq, Structural)]
pub enum TouchType {
    /// A quick touch.
    Down,
    /// A persistent touch that moves around the display.
    Contact,
    /// The finger left the display.
    Up,
}

impl TryFrom<u8> for Gesture {
    type Error = u8;

    /// The gesture that a code of the touch controller stands for; a code
    /// that stands for none comes back as the error.
    fn try_from(value: u8) -> (r: Result<Gesture, u8>) {
        match value {
            0x00 => Ok(Gesture::NoGesture),
            0x01 => Ok(Gesture::SlideDown),
            0x02 => Ok(Gesture::SlideUp),
            0x03 => Ok(Gesture::SlideLeft),
            0x04 => Ok(Gesture::SlideRight),
            0x05 => Ok(Gesture::SingleClick),
            0x0B => Ok(Gesture::DoubleClick),
            0x0C => Ok(Gesture::LongPress),
            other => Err(other),
        }
    }
}

impl TryFromSpecImpl<u8> for Gesture {
    open spec fn obeys_try_from_spec() -> bool {
        true
    }

    open spec fn try_from_spec(value: u8) -> Result<Gesture, u8> {
        if value == 0x00 {
            Ok(Gesture::NoGesture)
        } else if value == 0x01 {
            Ok(Gesture::SlideDown)
        } else if value == 0x02 {
            Ok(Gesture::SlideUp)
        } else if value == 0x03 {
            Ok(Gesture::SlideLeft)
        } else if value == 0x04 {
            Ok(Gesture::SlideRight)
        } else if value == 0x05 {
            Ok(Gesture::SingleClick)
        } else if value == 0x0B {
            Ok(Gesture::DoubleClick)
        } else if value == 0x0C {
            Ok(Gesture::LongPress)
        } else {
            Err(value)
        }
    }
}

impl TryFrom<u8> for TouchType {
    type Error = u8;

    /// The phase that an event code of the touch controller stands for; a
    /// code that stands for none comes back as the error.
    fn try_from(value: u8) -> (r: Result<TouchType, u8>) {
        match value {
            0 => Ok(TouchType::Down),
            1 => Ok(TouchType::Up),
            2 => Ok(TouchType::Contact),
            other => Err(other),
        }
    }
}

impl TryFromSpecImpl<u8> for TouchType {
    open spec fn obeys_try_from_spec() -> bool {
        true
    }

    open spec fn try_from_spec(value: u8) -> Result<TouchType, u8> {
        if value == 0 {
            Ok(TouchType::Down)
        } else if value == 1 {
            Ok(TouchType::Up)
        } else if value == 2 {
            Ok(TouchType::Contact)
        } else {
            Err(value)
        }
    }
}

} // verus!
