//! What the application asks of the display, and the arithmetic of layout
//! and text that comes before any pixel is drawn.

use crate::interface::{AppleMediaServiceString, BatteryData, TimeOfDay, LCD_W};
use crate::text::{text_as_str, text_of};
use vstd::prelude::*;
use vstd::utf8::encode_utf8;

verus! {

/// One request to the display.
#[derive(Clone, Copy, Debug)]
pub enum DrawCommand {
    /// Clear the whole display.
    Background,
    /// Show the power state.
    Battery(BatteryData),
    /// Show the time of day.
    Time(TimeOfDay),
    /// Show the artist and the title of the track that is playing.
    Media { artist: AppleMediaServiceString, title: AppleMediaServiceString },
    /// Show how many inputs per second are processed.
    Fps(u32),
    /// Show a message over the whole display.
    FullscreenText(&'static str),
}

/// One request to the display, as plain values.
pub enum DrawModel {
    Background,
    Battery(BatteryData),
    Time(TimeOfDay),
    Media { artist: Seq<char>, title: Seq<char> },
    Fps(nat),
    FullscreenText(Seq<char>),
}

impl View for DrawCommand {
    type V = DrawModel;

    open spec fn view(&self) -> DrawModel {
        match *self {
            DrawCommand::Background => DrawModel::Background,
            DrawCommand::Battery(battery) => DrawModel::Battery(battery),
            DrawCommand::Time(time) => DrawModel::Time(time),
            DrawCommand::Media { artist, title } => DrawModel::Media {
                artist: text_of(artist),
                title: text_of(title),
            },
            DrawCommand::Fps(fps) => DrawModel::Fps(fps as nat),
            DrawCommand::FullscreenText(text) => DrawModel::FullscreenText(text@),
        }
    }
}

/// A sequence of requests, as plain values.
pub open spec fn draw_models(commands: Seq<DrawCommand>) -> Seq<DrawModel> {
    commands.map_values(|c: DrawCommand| c@)
}

/// Width in pixels of one character of the artist and of the title.
pub const MEDIA_CHAR_WIDTH: u16 = 9;

/// Height in pixels of one character of the artist and of the title.
pub const MEDIA_CHAR_HEIGHT: u32 = 15;

/// Top of the line that shows the title.
pub const MEDIA_TITLE_Y: i32 = 40;

/// Top of the line that shows the artist.
pub const MEDIA_ARTIST_Y: i32 = 60;

/// Most characters of the artist or of the title that fit on one line.
pub const MEDIA_MAX_CHARS: usize = 26;

/// Where one line of text stands on the display: how much of the text is
/// shown, and how many pixels are cleared to its left and to its right.
#[derive(Clone, Copy, Debug, PartialEq, Eq, Structural)]
pub struct LineLayout {
    /// Bytes of the text that are shown.
    pub shown_len: usize,
    /// Width of the cleared strip on the left, where the text begins.
    pub left_padding: u32,
    /// Width of the cleared strip on the right.
    pub right_padding: u32,
}

/// The layout of a line of `text_len` characters of one byte each: the
/// text is cut to what fits, and centred, with the odd pixel on the left.
pub open spec fn line_layout(text_len: nat) -> LineLayout {
    let shown: nat = if text_len > MEDIA_MAX_CHARS {
        MEDIA_MAX_CHARS as nat
    } else {
        text_len
    };
    let remaining = LCD_W - shown * MEDIA_CHAR_WIDTH;
    LineLayout {
        shown_len: shown as usize,
        left_padding: (remaining / 2 + remaining % 2) as u32,
        right_padding: (remaining / 2) as u32,
    }
}

/// Lays out one line of the artist or of the title.
pub fn media_line_layout(text_len: usize) -> (layout: LineLayout)
    ensures
        layout == line_layout(text_len as nat),
{
    let max_chars = (LCD_W / MEDIA_CHAR_WIDTH) as usize;
    let shown_len = if text_len > max_chars {
        max_chars
    } else {
        text_len
    };
    let remaining_horizontal_space = (LCD_W - (shown_len as u16) * MEDIA_CHAR_WIDTH) as u32;
    let is_odd = remaining_horizontal_space % 2 != 0;
    let left_padding = remaining_horizontal_space / 2 + if is_odd {
        1
    } else {
        0
    };
    let right_padding = remaining_horizontal_space / 2;
    LineLayout { shown_len, left_padding, right_padding }
}

/// Lays out the line that shows `text`, by the bytes that it takes.
pub fn media_text_layout(text: &AppleMediaServiceString) -> (layout: LineLayout)
    ensures
        layout == line_layout(encode_utf8(text_of(*text)).len()),
{
    media_line_layout(text_as_str(text).len())
}

/// The text that is shown and the strips on both sides fill the width of
/// the display exactly, and the strips differ by one pixel at most.
pub proof fn lemma_line_fills_width(text_len: nat)
    ensures
        ({
            let layout = line_layout(text_len);
            &&& layout.shown_len <= MEDIA_MAX_CHARS
            &&& layout.shown_len <= text_len
            &&& layout.left_padding + layout.shown_len * MEDIA_CHAR_WIDTH + layout.right_padding
                == LCD_W
            &&& layout.right_padding <= layout.left_padding <= layout.right_padding + 1
        }),
{
}

/// The character of a decimal digit.
pub open spec fn digit(n: int) -> u8 {
    (48 + n) as u8
}

/// The time of day as it is shown: hours, minutes and seconds with two
/// digits each, and a colon between them.
pub open spec fn time_chars(time: TimeOfDay) -> Seq<u8> {
    seq![
        digit(time.hours as int / 10),
        digit(time.hours as int % 10),
        58u8,
        digit(time.minutes as int / 10),
        digit(time.minutes as int % 10),
        58u8,
        digit(time.seconds as int / 10),
        digit(time.seconds as int % 10),
    ]
}

/// Writes the time of day as it is shown.
pub fn time_text(time: TimeOfDay) -> (text: [u8; 8])
    requires
        time.hours < 100,
        time.minutes < 100,
        time.seconds < 100,
    ensures
        text@ == time_chars(time),
{
    let text: [u8; 8] = [
        48 + time.hours / 10,
        48 + time.hours % 10,
        58,
        48 + time.minutes / 10,
        48 + time.minutes % 10,
        58,
        48 + time.seconds / 10,
        48 + time.seconds % 10,
    ];
    assert(text@ =~= time_chars(time));
    text
}

/// The highest rate that the display has room for.
pub const MAX_SHOWN_FPS: u32 = 999;

/// The rate of inputs as it is shown: the letters FPS, a colon, a blank,
/// and three digits. A rate above 999 is shown as 999.
pub open spec fn fps_chars(fps: nat) -> Seq<u8> {
    let shown: int = if fps > MAX_SHOWN_FPS {
        MAX_SHOWN_FPS as int
    } else {
        fps as int
    };
    seq![
        70u8,
        80u8,
        83u8,
        58u8,
        32u8,
        digit(shown / 100),
        digit(shown / 10 % 10),
        digit(shown % 10),
    ]
}

/// Writes the rate of inputs as it is shown.
pub fn fps_text(fps: u32) -> (text: [u8; 8])
    ensures
        text@ == fps_chars(fps as nat),
{
    let shown = if fps > MAX_SHOWN_FPS {
        MAX_SHOWN_FPS
    } else {
        fps
    };
    let text: [u8; 8] = [
        70,
        80,
        83,
        58,
        32,
        48 + (shown / 100) as u8,
        48 + (shown / 10 % 10) as u8,
        48 + (shown % 10) as u8,
    ];
    assert(text@ =~= fps_chars(fps as nat));
    text
}

} // verus!
