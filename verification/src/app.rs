//! The application state machine: it takes the inputs one by one, keeps what
//! they say, and decides what to show and what to send to the host.

use crate::clock::{advance, ClockModel, TimeState};
use crate::display::{draw_models, DrawCommand, DrawModel};
use crate::interface::{
    AppInput, AppOutput, AppleMediaServiceData, BatteryData, Gesture, MediaControl, MediaView,
    TimeOfDay, Touch,
};
use vstd::prelude::*;

verus! {

/// The surface that is shown.
#[derive(Clone, Copy, Debug, PartialEq, Eq, Structural)]
pub enum ActiveWindow {
    Main,
    Debug,
}

impl ActiveWindow {
    /// The other window.
    pub open spec fn toggled(self) -> ActiveWindow {
        match self {
            ActiveWindow::Main => ActiveWindow::Debug,
            ActiveWindow::Debug => ActiveWindow::Main,
        }
    }

    /// The window that a press of the button leads to.
    pub fn next(&self) -> (window: ActiveWindow)
        ensures
            window == self.toggled(),
    {
        match self {
            ActiveWindow::Main => ActiveWindow::Debug,
            ActiveWindow::Debug => ActiveWindow::Main,
        }
    }
}

/// The transport command that a gesture stands for.
pub open spec fn gesture_command(gesture: Gesture) -> Option<MediaControl> {
    match gesture {
        Gesture::SingleClick => Some(MediaControl::TogglePlayPause),
        Gesture::SlideRight => Some(MediaControl::NextTrack),
        Gesture::SlideLeft => Some(MediaControl::PreviousTrack),
        Gesture::SlideUp => Some(MediaControl::VolumeUp),
        Gesture::SlideDown => Some(MediaControl::VolumeDown),
        _ => None,
    }
}

/// The power state that is shown until the first sample arrives.
pub open spec fn placeholder_battery() -> BatteryData {
    BatteryData { charging: false, millivolts: 3500 }
}

/// The state of the application, as plain values.
pub struct AppModel {
    pub active_window: ActiveWindow,
    pub time: ClockModel,
    pub media: Option<MediaView>,
    pub battery: BatteryData,
    pub critical_error: Option<Seq<char>>,
}

impl AppModel {
    /// Device time has not run backwards.
    pub open spec fn wf(self) -> bool {
        self.time.wf()
    }

    /// The state of an application that has just started.
    pub open spec fn initial(ms_since_boot: nat) -> AppModel {
        AppModel {
            active_window: ActiveWindow::Main,
            time: ClockModel::started_at(ms_since_boot),
            media: None,
            battery: placeholder_battery(),
            critical_error: None,
        }
    }

    /// The state after `event` is processed at device time `ms_since_boot`.
    pub open spec fn step(self, ms_since_boot: nat, event: AppInput) -> AppModel {
        let time = self.time.observed(ms_since_boot);
        match event {
            AppInput::AppleMedia(media) => AppModel { time, media: Some(media@), ..self },
            AppInput::Battery(battery) => AppModel { time, battery, ..self },
            AppInput::Time(time_of_day) => AppModel { time: time.with_time(time_of_day), ..self },
            AppInput::Touch(_) => AppModel { time, ..self },
            AppInput::ButtonPressed => AppModel {
                time,
                active_window: self.active_window.toggled(),
                ..self
            },
            AppInput::Tick => AppModel { time, ..self },
            AppInput::CriticalError(message) => AppModel {
                time,
                critical_error: Some(message@),
                active_window: ActiveWindow::Debug,
                ..self
            },
        }
    }

    /// What processing `event` in this state asks of the platform: the
    /// command of a touch gesture while a track is known, and nothing else.
    pub open spec fn output(self, event: AppInput) -> Option<AppOutput> {
        match event {
            AppInput::Touch(touch) => if self.media is Some {
                match gesture_command(touch.gesture) {
                    Some(control) => Some(AppOutput::MediaControl(control)),
                    None => None,
                }
            } else {
                None
            },
            _ => None,
        }
    }

    /// Whether processing `event` clears the display before it is drawn.
    pub open spec fn clears_background(event: AppInput) -> bool {
        event is ButtonPressed || event is CriticalError
    }

    /// What is shown in this state: on the main window the power state, the
    /// current time and, where a track is known, its artist and title; on the
    /// debug window the fatal message, where there is one; and on both the
    /// rate of inputs.
    pub open spec fn frame(self) -> Seq<DrawModel> {
        let window = match self.active_window {
            ActiveWindow::Main => {
                let status = seq![
                    DrawModel::Battery(self.battery),
                    DrawModel::Time(self.time.current_time()),
                ];
                match self.media {
                    Some(media) => status.push(
                        DrawModel::Media { artist: media.artist, title: media.title },
                    ),
                    None => status,
                }
            },
            ActiveWindow::Debug => match self.critical_error {
                Some(message) => seq![DrawModel::FullscreenText(message)],
                None => Seq::<DrawModel>::empty(),
            },
        };
        window.push(DrawModel::Fps(self.time.fps()))
    }

    /// What is sent to the display once `event` has led to this state.
    pub open spec fn rendering(self, event: AppInput) -> Seq<DrawModel> {
        if AppModel::clears_background(event) {
            seq![DrawModel::Background] + self.frame()
        } else {
            self.frame()
        }
    }
}

impl AppModel {
    /// The state after `events` are processed in order, each at its device time.
    pub open spec fn after(self, events: Seq<(nat, AppInput)>) -> AppModel
        decreases events.len(),
    {
        if events.len() == 0 {
            self
        } else {
            self.after(events.drop_last()).step(events.last().0, events.last().1)
        }
    }
}

/// Processing an input at a device time that is not before the last one
/// keeps the state well-formed.
pub proof fn lemma_step_keeps_wf(state: AppModel, ms_since_boot: nat, event: AppInput)
    requires
        state.wf(),
        state.time.now <= ms_since_boot <= u64::MAX,
    ensures
        state.step(ms_since_boot, event).wf(),
{
}

/// A press of the button always leads to the other of the two windows, so a
/// second press leads back.
pub proof fn lemma_button_toggles(state: AppModel, ms_since_boot: nat)
    ensures
        state.step(ms_since_boot, AppInput::ButtonPressed).active_window
            == state.active_window.toggled(),
        state.active_window.toggled() != state.active_window,
        state.active_window.toggled().toggled() == state.active_window,
{
}

/// A fatal error always leads to the debug window, whatever window was
/// shown, and its message is kept.
pub proof fn lemma_fatal_error_shows_debug(
    state: AppModel,
    ms_since_boot: nat,
    message: &'static str,
)
    ensures
        state.step(ms_since_boot, AppInput::CriticalError(message)).active_window
            == ActiveWindow::Debug,
        state.step(ms_since_boot, AppInput::CriticalError(message)).critical_error == Some(
            message@,
        ),
{
}

/// Only a press of the button or a fatal error changes the window.
pub proof fn lemma_window_changes_only_on_button_or_error(
    state: AppModel,
    ms_since_boot: nat,
    event: AppInput,
)
    requires
        !(event is ButtonPressed),
        !(event is CriticalError),
    ensures
        state.step(ms_since_boot, event).active_window == state.active_window,
{
}

/// A tick and a touch change nothing but the device times: they only lead
/// to another frame.
pub proof fn lemma_tick_and_touch_only_redraw(state: AppModel, ms_since_boot: nat, touch: Touch)
    ensures
        state.step(ms_since_boot, AppInput::Tick) == (AppModel {
            time: state.time.observed(ms_since_boot),
            ..state
        }),
        state.step(ms_since_boot, AppInput::Touch(touch)) == state.step(
            ms_since_boot,
            AppInput::Tick,
        ),
        state.step(ms_since_boot, AppInput::Tick).time.current_time() == advance(
            state.time.last_specified_time,
            (ms_since_boot - state.time.specified_at) as nat,
        ),
{
}

/// A fatal message, once recorded, is never dropped.
pub proof fn lemma_fatal_error_is_kept(state: AppModel, ms_since_boot: nat, event: AppInput)
    requires
        state.critical_error is Some,
    ensures
        state.step(ms_since_boot, event).critical_error is Some,
{
}

/// Every gesture has the output that the gesture table gives while a track
/// is known, and none while no track is known.
pub proof fn lemma_gesture_mapping(state: AppModel, touch: Touch)
    ensures
        state.media is None ==> state.output(AppInput::Touch(touch)) is None,
        state.media is Some ==> state.output(AppInput::Touch(touch)) == (match touch.gesture {
            Gesture::SingleClick => Some(AppOutput::MediaControl(MediaControl::TogglePlayPause)),
            Gesture::SlideRight => Some(AppOutput::MediaControl(MediaControl::NextTrack)),
            Gesture::SlideLeft => Some(AppOutput::MediaControl(MediaControl::PreviousTrack)),
            Gesture::SlideUp => Some(AppOutput::MediaControl(MediaControl::VolumeUp)),
            Gesture::SlideDown => Some(AppOutput::MediaControl(MediaControl::VolumeDown)),
            Gesture::NoGesture | Gesture::DoubleClick | Gesture::LongPress => None,
        }),
{
}

/// As long as no track has ever been reported since the start, no track is
/// known, and so no gesture has an output.
pub proof fn lemma_no_output_before_media(
    ms_since_boot: nat,
    events: Seq<(nat, AppInput)>,
    touch: Touch,
)
    requires
        forall|i: int| 0 <= i < events.len() ==> !((#[trigger] events[i]).1 is AppleMedia),
    ensures
        AppModel::initial(ms_since_boot).after(events).media is None,
        AppModel::initial(ms_since_boot).after(events).output(AppInput::Touch(touch)) is None,
    decreases events.len(),
{
    if events.len() > 0 {
        lemma_no_output_before_media(ms_since_boot, events.drop_last(), touch);
        assert(!(events[events.len() - 1].1 is AppleMedia));
    }
}

/// An input that is no touch has no output.
pub proof fn lemma_only_touch_has_output(state: AppModel, event: AppInput)
    requires
        !(event is Touch),
    ensures
        state.output(event) is None,
{
}

/// The application.
pub struct App {
    active_window: ActiveWindow,
    time: TimeState,
    media: Option<AppleMediaServiceData>,
    battery: BatteryData,
    critical_error: Option<&'static str>,
}

impl View for App {
    type V = AppModel;

    closed spec fn view(&self) -> AppModel {
        AppModel {
            active_window: self.active_window,
            time: self.time@,
            media: match self.media {
                Some(media) => Some(media@),
                None => None,
            },
            battery: self.battery,
            critical_error: match self.critical_error {
                Some(message) => Some(message@),
                None => None,
            },
        }
    }
}

/// The transport command that a gesture stands for.
pub fn command_for(gesture: Gesture) -> (command: Option<MediaControl>)
    ensures
        command == gesture_command(gesture),
{
    match gesture {
        Gesture::SingleClick => Some(MediaControl::TogglePlayPause),
        Gesture::SlideRight => Some(MediaControl::NextTrack),
        Gesture::SlideLeft => Some(MediaControl::PreviousTrack),
        Gesture::SlideUp => Some(MediaControl::VolumeUp),
        Gesture::SlideDown => Some(MediaControl::VolumeDown),
        _ => None,
    }
}

impl App {
    /// Device time has not run backwards since the application started.
    pub open spec fn wf(&self) -> bool {
        self@.wf()
    }

    /// Starts the application at device time `ms_since_boot`, and says what
    /// to draw first: the background, then the first frame.
    pub fn init(ms_since_boot: u64) -> (r: (App, Vec<DrawCommand>))
        ensures
            r.0.wf(),
            r.0@ == AppModel::initial(ms_since_boot as nat),
            draw_models(r.1@) == seq![DrawModel::Background] + r.0@.frame(),
    {
        let app = App {
            active_window: ActiveWindow::Main,
            time: TimeState::new(ms_since_boot),
            media: None,
            // Shown until the first sample of the power state arrives.
            battery: BatteryData { charging: false, millivolts: 3500 },
            critical_error: None,
        };
        let mut commands: Vec<DrawCommand> = Vec::new();
        commands.push(DrawCommand::Background);
        app.draw_onto(&mut commands);
        (app, commands)
    }

    /// Processes one input at device time `ms_since_boot`. Returns what the
    /// platform is asked to do and what is to be drawn.
    pub fn handle_event(&mut self, ms_since_boot: u64, event: AppInput) -> (r: (
        Option<AppOutput>,
        Vec<DrawCommand>,
    ))
        requires
            old(self).wf(),
            old(self)@.time.now <= ms_since_boot,
        ensures
            final(self).wf(),
            final(self)@ == old(self)@.step(ms_since_boot as nat, event),
            r.0 == old(self)@.output(event),
            draw_models(r.1@) == final(self)@.rendering(event),
    {
        self.time.observe(ms_since_boot);
        let mut commands: Vec<DrawCommand> = Vec::new();

        let output = match event {
            AppInput::AppleMedia(media) => {
                self.media = Some(media);
                None
            },
            AppInput::Battery(battery) => {
                self.battery = battery;
                None
            },
            AppInput::Time(time_of_day) => {
                self.time.set_time(time_of_day);
                None
            },
            AppInput::Touch(touch) => {
                // A known track stands for a host that is paired and playing.
                if self.media.is_some() {
                    match command_for(touch.gesture) {
                        Some(control) => Some(AppOutput::MediaControl(control)),
                        None => None,
                    }
                } else {
                    None
                }
            },
            AppInput::ButtonPressed => {
                commands.push(DrawCommand::Background);
                self.active_window = self.active_window.next();
                None
            },
            AppInput::Tick => {
                // Only draws again.
                None
            },
            AppInput::CriticalError(message) => {
                self.critical_error = Some(message);
                commands.push(DrawCommand::Background);
                self.active_window = ActiveWindow::Debug;
                None
            },
        };

        self.draw_onto(&mut commands);
        (output, commands)
    }

    /// What is to be drawn in the current state.
    pub fn draw(&self) -> (commands: Vec<DrawCommand>)
        requires
            self.wf(),
        ensures
            draw_models(commands@) == self@.frame(),
    {
        let mut commands: Vec<DrawCommand> = Vec::new();
        self.draw_onto(&mut commands);
        commands
    }

    fn draw_onto(&self, commands: &mut Vec<DrawCommand>)
        requires
            self.wf(),
        ensures
            draw_models(final(commands)@) == draw_models(old(commands)@) + self@.frame(),
    {
        let ghost before = draw_models(commands@);
        match self.active_window {
            ActiveWindow::Main => {
                commands.push(DrawCommand::Battery(self.battery));
                commands.push(DrawCommand::Time(self.time.current_time()));
                if let Some(media) = &self.media {
                    commands.push(DrawCommand::Media { artist: media.artist, title: media.title });
                }
            },
            ActiveWindow::Debug => {
                if let Some(message) = self.critical_error {
                    commands.push(DrawCommand::FullscreenText(message));
                }
            },
        }
        // The rate is drawn at the bottom of every window.
        commands.push(DrawCommand::Fps(self.time.fps()));
        assert(draw_models(commands@) =~= before + self@.frame());
    }

    /// The device time of the input that was processed last. The next
    /// input is to come with a device time that is not before it.
    pub fn ms_since_boot(&self) -> (ms: u64)
        ensures
            ms == self@.time.now,
    {
        self.time.current_ms_since_boot()
    }

    /// The window that is shown.
    pub fn active_window(&self) -> (window: ActiveWindow)
        ensures
            window == self@.active_window,
    {
        self.active_window
    }

    /// The current time of day.
    pub fn current_time(&self) -> (now: TimeOfDay)
        requires
            self.wf(),
        ensures
            now == self@.time.current_time(),
            now.is_valid(),
    {
        self.time.current_time()
    }

    /// The track that is playing, where the host has reported one.
    pub fn media(&self) -> (media: Option<AppleMediaServiceData>)
        ensures
            media is Some <==> self@.media is Some,
            media matches Some(m) ==> Some(m@) == self@.media,
    {
        self.media
    }

    /// The power state that was reported last.
    pub fn battery(&self) -> (battery: BatteryData)
        ensures
            battery == self@.battery,
    {
        self.battery
    }

    /// The fatal message, where a fault was reported.
    pub fn critical_error(&self) -> (message: Option<&'static str>)
        ensures
            message is Some <==> self@.critical_error is Some,
            message matches Some(m) ==> Some(m@) == self@.critical_error,
    {
        self.critical_error
    }
}

} // verus!
