use arrayvec::ArrayString;
use mesozoic::app::App;
use mesozoic::display::{
    fps_text, media_line_layout, media_text_layout, time_text, DrawCommand, LineLayout,
    MEDIA_ARTIST_Y, MEDIA_CHAR_HEIGHT, MEDIA_CHAR_WIDTH, MEDIA_MAX_CHARS, MEDIA_TITLE_Y,
};
use mesozoic::interface::{AppInput, TimeOfDay, LCD_H, LCD_W};

fn layout_of(text: &str) -> LineLayout {
    media_text_layout(&ArrayString::from(text).unwrap())
}

#[test]
fn audio() {
    // First long strings, then shorter ones: the strips that are cleared
    // grow with what the shorter text leaves free.
    assert_eq!(
        layout_of("long artist"),
        LineLayout { shown_len: 11, left_padding: 71, right_padding: 70 }
    );
    assert_eq!(
        layout_of("long title"),
        LineLayout { shown_len: 10, left_padding: 75, right_padding: 75 }
    );
    assert_eq!(
        layout_of("artist"),
        LineLayout { shown_len: 6, left_padding: 93, right_padding: 93 }
    );
    assert_eq!(layout_of("title"), LineLayout { shown_len: 5, left_padding: 98, right_padding: 97 });
}

#[test]
fn fullscreen_text() {
    // As much of the message as fits is shown; the command carries all of it.
    let message = "1 first line
2 really long line that needs to split to new line
3 more text wow so much text wrapping wrapping wrapping
4 all the way down
5 more text wow so much text wrapping wrapping wrapping
6 all the way down
7 more text wow so much text wrapping wrapping wrapping
8 all the way down
9 more text wow so much text wrapping wrapping wrapping
0 all the way down
a more text wow so much text wrapping wrapping wrapping
b all the way down
c more text wow so much text wrapping wrapping wrapping
d all the way down
e more text wow so much text wrapping wrapping wrapping";
    let (mut app, _) = App::init(0);
    let (_, frame) = app.handle_event(0, AppInput::CriticalError(message));
    match frame[1] {
        DrawCommand::FullscreenText(text) => assert_eq!(text, message),
        _ => panic!("the message is drawn over the whole display"),
    }
}

#[test]
fn long_text_is_cut_to_the_line() {
    assert_eq!(MEDIA_MAX_CHARS, 26);
    assert_eq!(
        media_line_layout(26),
        LineLayout { shown_len: 26, left_padding: 3, right_padding: 3 }
    );
    assert_eq!(
        media_line_layout(27),
        LineLayout { shown_len: 26, left_padding: 3, right_padding: 3 }
    );
    assert_eq!(
        media_line_layout(512),
        LineLayout { shown_len: 26, left_padding: 3, right_padding: 3 }
    );
    assert_eq!(
        media_line_layout(usize::MAX),
        LineLayout { shown_len: 26, left_padding: 3, right_padding: 3 }
    );
}

#[test]
fn empty_line_is_all_padding() {
    assert_eq!(
        media_line_layout(0),
        LineLayout { shown_len: 0, left_padding: 120, right_padding: 120 }
    );
    assert_eq!(layout_of(""), LineLayout { shown_len: 0, left_padding: 120, right_padding: 120 });
}

#[test]
fn line_fills_the_width() {
    for len in 0..64usize {
        let layout = media_line_layout(len);
        assert_eq!(
            layout.left_padding + layout.shown_len as u32 * MEDIA_CHAR_WIDTH as u32
                + layout.right_padding,
            LCD_W as u32
        );
        assert!(layout.left_padding == layout.right_padding
            || layout.left_padding == layout.right_padding + 1);
    }
}

#[test]
fn layout_counts_bytes() {
    // Two bytes for the last letter.
    assert_eq!(layout_of("café"), media_line_layout(5));
}

#[test]
fn time_is_written_with_two_digits_each() {
    assert_eq!(&time_text(TimeOfDay { hours: 10, minutes: 15, seconds: 1 }), b"10:15:01");
    assert_eq!(&time_text(TimeOfDay { hours: 0, minutes: 0, seconds: 0 }), b"00:00:00");
    assert_eq!(&time_text(TimeOfDay { hours: 23, minutes: 59, seconds: 59 }), b"23:59:59");
    assert_eq!(&time_text(TimeOfDay { hours: 9, minutes: 5, seconds: 30 }), b"09:05:30");
    assert_eq!(&time_text(TimeOfDay { hours: 99, minutes: 99, seconds: 99 }), b"99:99:99");
}

#[test]
fn fps_is_written_with_three_digits() {
    assert_eq!(&fps_text(58), b"FPS: 058");
    assert_eq!(&fps_text(0), b"FPS: 000");
    assert_eq!(&fps_text(7), b"FPS: 007");
    assert_eq!(&fps_text(999), b"FPS: 999");
    assert_eq!(&fps_text(1000), b"FPS: 999");
    assert_eq!(&fps_text(u32::MAX), b"FPS: 999");
    assert_eq!(&fps_text(123), b"FPS: 123");
}

#[test]
fn display_constants() {
    assert_eq!(LCD_W, 240);
    assert_eq!(LCD_H, 240);
    assert_eq!(MEDIA_CHAR_WIDTH, 9);
    assert_eq!(MEDIA_CHAR_HEIGHT, 15);
    assert_eq!(MEDIA_TITLE_Y, 40);
    assert_eq!(MEDIA_ARTIST_Y, 60);
}
