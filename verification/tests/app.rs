use arrayvec::ArrayString;
use mesozoic::app::{command_for, ActiveWindow, App};
use mesozoic::display::DrawCommand;
use mesozoic::interface::{
    AppInput, AppOutput, AppleMediaServiceData, BatteryData, Gesture, MediaControl, TimeOfDay,
    Touch, TouchType,
};

fn text(s: &str) -> ArrayString<512> {
    ArrayString::from(s).unwrap()
}

fn station() -> AppleMediaServiceData {
    AppleMediaServiceData {
        artist: text("Rustacean Station"),
        album: text("April 28, 2023"),
        title: text("Rust Embedded WG"),
    }
}

fn touch(gesture: Gesture) -> AppInput {
    AppInput::Touch(Touch { gesture, event_type: TouchType::Down, x: 120, y: 120 })
}

const ALL_GESTURES: [Gesture; 8] = [
    Gesture::SlideDown,
    Gesture::SlideUp,
    Gesture::SlideLeft,
    Gesture::SlideRight,
    Gesture::SingleClick,
    Gesture::NoGesture,
    Gesture::DoubleClick,
    Gesture::LongPress,
];

#[test]
fn init_and_paired() {
    let ms_since_boot = 0;
    let (mut app, first) = App::init(ms_since_boot);
    assert!(matches!(first[0], DrawCommand::Background));

    app.handle_event(
        ms_since_boot,
        AppInput::Battery(BatteryData { charging: true, millivolts: 4100 }),
    );
    app.handle_event(
        ms_since_boot,
        AppInput::Time(TimeOfDay { hours: 10, minutes: 15, seconds: 01 }),
    );
    app.handle_event(ms_since_boot, AppInput::AppleMedia(station()));
    // This input sets the rate that is shown.
    let (output, frame) = app.handle_event(ms_since_boot + 17, AppInput::Tick);

    assert_eq!(output, None);
    assert_eq!(app.active_window(), ActiveWindow::Main);
    assert_eq!(app.current_time(), TimeOfDay { hours: 10, minutes: 15, seconds: 1 });
    assert_eq!(app.battery(), BatteryData { charging: true, millivolts: 4100 });
    let media = app.media().unwrap();
    assert_eq!(media.artist.as_str(), "Rustacean Station");
    assert_eq!(media.album.as_str(), "April 28, 2023");
    assert_eq!(media.title.as_str(), "Rust Embedded WG");

    assert_eq!(frame.len(), 4);
    match frame[0] {
        DrawCommand::Battery(battery) => {
            assert_eq!(battery, BatteryData { charging: true, millivolts: 4100 })
        }
        _ => panic!("the battery comes first"),
    }
    match frame[1] {
        DrawCommand::Time(time) => {
            assert_eq!(time, TimeOfDay { hours: 10, minutes: 15, seconds: 1 })
        }
        _ => panic!("the time comes second"),
    }
    match frame[2] {
        DrawCommand::Media { artist, title } => {
            assert_eq!(artist.as_str(), "Rustacean Station");
            assert_eq!(title.as_str(), "Rust Embedded WG");
        }
        _ => panic!("the track comes third"),
    }
    match frame[3] {
        DrawCommand::Fps(fps) => assert_eq!(fps, 58),
        _ => panic!("the rate comes last"),
    }
}

#[test]
fn first_frame_shows_the_placeholder_battery_and_midnight() {
    let (app, first) = App::init(42);
    assert_eq!(app.active_window(), ActiveWindow::Main);
    assert!(app.media().is_none());
    assert!(app.critical_error().is_none());
    assert_eq!(first.len(), 4);
    assert!(matches!(first[0], DrawCommand::Background));
    match first[1] {
        DrawCommand::Battery(battery) => {
            assert_eq!(battery, BatteryData { charging: false, millivolts: 3500 })
        }
        _ => panic!("the battery follows the background"),
    }
    match first[2] {
        DrawCommand::Time(time) => assert_eq!(time, TimeOfDay { hours: 0, minutes: 0, seconds: 0 }),
        _ => panic!("the time follows the battery"),
    }
    match first[3] {
        DrawCommand::Fps(fps) => assert_eq!(fps, 1000),
        _ => panic!("the rate comes last"),
    }
    let again = app.draw();
    assert_eq!(again.len(), 3);
    assert!(matches!(again[0], DrawCommand::Battery(_)));
}

#[test]
fn gestures_map_to_commands_once_a_track_is_known() {
    let (mut app, _) = App::init(0);
    app.handle_event(1, AppInput::AppleMedia(station()));
    let expected = [
        Some(MediaControl::VolumeDown),
        Some(MediaControl::VolumeUp),
        Some(MediaControl::PreviousTrack),
        Some(MediaControl::NextTrack),
        Some(MediaControl::TogglePlayPause),
        None,
        None,
        None,
    ];
    for (gesture, control) in ALL_GESTURES.iter().zip(expected.iter()) {
        let (output, _) = app.handle_event(2, touch(*gesture));
        assert_eq!(output, control.map(AppOutput::MediaControl));
        assert_eq!(command_for(*gesture), *control);
    }
}

#[test]
fn gestures_have_no_output_before_a_track_is_known() {
    let (mut app, _) = App::init(0);
    app.handle_event(1, AppInput::Battery(BatteryData { charging: true, millivolts: 4000 }));
    app.handle_event(2, AppInput::Time(TimeOfDay { hours: 1, minutes: 2, seconds: 3 }));
    app.handle_event(3, AppInput::ButtonPressed);
    app.handle_event(4, AppInput::Tick);
    for gesture in ALL_GESTURES.iter() {
        let (output, _) = app.handle_event(5, touch(*gesture));
        assert_eq!(output, None);
    }
}

#[test]
fn only_touches_have_an_output() {
    let (mut app, _) = App::init(0);
    assert_eq!(app.handle_event(1, AppInput::AppleMedia(station())).0, None);
    assert_eq!(
        app.handle_event(1, AppInput::Battery(BatteryData { charging: false, millivolts: 1 })).0,
        None
    );
    assert_eq!(
        app.handle_event(1, AppInput::Time(TimeOfDay { hours: 0, minutes: 0, seconds: 0 })).0,
        None
    );
    assert_eq!(app.handle_event(1, AppInput::ButtonPressed).0, None);
    assert_eq!(app.handle_event(1, AppInput::Tick).0, None);
    assert_eq!(app.handle_event(1, AppInput::CriticalError("fault")).0, None);
}

#[test]
fn button_toggles_between_the_two_windows() {
    let (mut app, _) = App::init(0);
    assert_eq!(app.active_window(), ActiveWindow::Main);
    let (_, frame) = app.handle_event(1, AppInput::ButtonPressed);
    assert_eq!(app.active_window(), ActiveWindow::Debug);
    // The background is cleared, and without a fault only the rate is shown.
    assert_eq!(frame.len(), 2);
    assert!(matches!(frame[0], DrawCommand::Background));
    assert!(matches!(frame[1], DrawCommand::Fps(1000)));
    let (_, frame) = app.handle_event(2, AppInput::ButtonPressed);
    assert_eq!(app.active_window(), ActiveWindow::Main);
    assert_eq!(frame.len(), 4);
    assert!(matches!(frame[0], DrawCommand::Background));
    assert!(matches!(frame[1], DrawCommand::Battery(_)));
    assert!(matches!(frame[2], DrawCommand::Time(_)));
    assert!(matches!(frame[3], DrawCommand::Fps(1000)));
}

#[test]
fn next_window_is_the_other_one() {
    assert_eq!(ActiveWindow::Main.next(), ActiveWindow::Debug);
    assert_eq!(ActiveWindow::Debug.next(), ActiveWindow::Main);
    assert_eq!(ActiveWindow::Main.next().next(), ActiveWindow::Main);
}

#[test]
fn fatal_error_leads_to_debug_from_either_window() {
    let (mut app, _) = App::init(0);
    let (output, frame) = app.handle_event(1, AppInput::CriticalError("from main"));
    assert_eq!(output, None);
    assert_eq!(app.active_window(), ActiveWindow::Debug);
    assert_eq!(app.critical_error(), Some("from main"));
    assert_eq!(frame.len(), 3);
    assert!(matches!(frame[0], DrawCommand::Background));
    match frame[1] {
        DrawCommand::FullscreenText(message) => assert_eq!(message, "from main"),
        _ => panic!("the message follows the background"),
    }
    assert!(matches!(frame[2], DrawCommand::Fps(1000)));

    let (mut app, _) = App::init(0);
    app.handle_event(1, AppInput::ButtonPressed);
    assert_eq!(app.active_window(), ActiveWindow::Debug);
    app.handle_event(2, AppInput::CriticalError("from debug"));
    assert_eq!(app.active_window(), ActiveWindow::Debug);
    assert_eq!(app.critical_error(), Some("from debug"));
}

#[test]
fn fatal_message_is_kept_and_shown_again() {
    let (mut app, _) = App::init(0);
    app.handle_event(1, AppInput::CriticalError("kept"));
    app.handle_event(2, AppInput::ButtonPressed);
    assert_eq!(app.active_window(), ActiveWindow::Main);
    app.handle_event(3, AppInput::Tick);
    app.handle_event(4, AppInput::AppleMedia(station()));
    assert_eq!(app.critical_error(), Some("kept"));
    let (_, frame) = app.handle_event(5, AppInput::ButtonPressed);
    assert_eq!(app.active_window(), ActiveWindow::Debug);
    match frame[1] {
        DrawCommand::FullscreenText(message) => assert_eq!(message, "kept"),
        _ => panic!("the message is shown on the debug window"),
    }
}

#[test]
fn inputs_replace_what_is_stored() {
    let (mut app, _) = App::init(0);
    app.handle_event(1, AppInput::Battery(BatteryData { charging: true, millivolts: 4200 }));
    assert_eq!(app.battery(), BatteryData { charging: true, millivolts: 4200 });
    app.handle_event(2, AppInput::Battery(BatteryData { charging: false, millivolts: 3700 }));
    assert_eq!(app.battery(), BatteryData { charging: false, millivolts: 3700 });

    app.handle_event(3, AppInput::AppleMedia(station()));
    let other = AppleMediaServiceData {
        artist: text("Chats with James"),
        album: text("September 29, 2023"),
        title: text("014 - Steve Klabnik"),
    };
    app.handle_event(4, AppInput::AppleMedia(other));
    assert_eq!(app.media(), Some(other));

    app.handle_event(1000, AppInput::Time(TimeOfDay { hours: 23, minutes: 59, seconds: 58 }));
    assert_eq!(app.current_time(), TimeOfDay { hours: 23, minutes: 59, seconds: 58 });
    app.handle_event(3000, AppInput::Tick);
    assert_eq!(app.current_time(), TimeOfDay { hours: 0, minutes: 0, seconds: 0 });
}

#[test]
fn time_basis_moves_with_each_clock_reading() {
    let (mut app, _) = App::init(0);
    app.handle_event(10_000, AppInput::Time(TimeOfDay { hours: 8, minutes: 0, seconds: 0 }));
    app.handle_event(20_000, AppInput::Tick);
    assert_eq!(app.current_time(), TimeOfDay { hours: 8, minutes: 0, seconds: 10 });
    app.handle_event(20_000, AppInput::Time(TimeOfDay { hours: 9, minutes: 30, seconds: 0 }));
    assert_eq!(app.current_time(), TimeOfDay { hours: 9, minutes: 30, seconds: 0 });
    app.handle_event(25_500, AppInput::Tick);
    assert_eq!(app.current_time(), TimeOfDay { hours: 9, minutes: 30, seconds: 5 });
}
