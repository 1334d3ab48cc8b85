//! The fan-in of the platform: every source of events is mapped to one
//! input of the application, which takes them in the order of receipt.

use crate::app::{App, AppModel};
use crate::ble::CurrentTime;
use crate::display::{draw_models, DrawCommand};
use crate::interface::{
    AppInput, AppOutput, AppleMediaServiceData, BatteryData, MediaControl, TimeOfDay, Touch,
};
use vstd::prelude::*;

verus! {

/// How many touches, presses of the button or commands may wait in their
/// queue before the one that adds another has to wait.
pub const QUEUE_DEPTH: usize = 5;

/// What one of the sources of the platform has delivered.
#[derive(Clone, Copy, Debug)]
pub enum PlatformEvent {
    /// The latest record of the track.
    Media(AppleMediaServiceData),
    /// The latest sample of the power state.
    Battery(BatteryData),
    /// The latest time that the host reported.
    Time(CurrentTime),
    /// The periodic signal to render.
    Tick,
    /// The next touch in the queue.
    Touch(Touch),
    /// The next press of the button in the queue.
    Button,
}

/// The input of the application that an event of the platform becomes.
/// Nothing is changed but the time of the host, of which the time of day is
/// kept.
pub open spec fn app_input(event: PlatformEvent) -> AppInput {
    match event {
        PlatformEvent::Media(media) => AppInput::AppleMedia(media),
        PlatformEvent::Battery(battery) => AppInput::Battery(battery),
        PlatformEvent::Time(time) => AppInput::Time(time.time_of_day()),
        PlatformEvent::Tick => AppInput::Tick,
        PlatformEvent::Touch(touch) => AppInput::Touch(touch),
        PlatformEvent::Button => AppInput::ButtonPressed,
    }
}

/// The command to put into the queue for the host, for what the
/// application asked.
pub open spec fn command_to_send(output: Option<AppOutput>) -> Option<MediaControl> {
    match output {
        Some(AppOutput::MediaControl(control)) => Some(control),
        None => None,
    }
}

/// Maps an event of the platform to the input of the application.
pub fn to_app_input(event: PlatformEvent) -> (input: AppInput)
    ensures
        input == app_input(event),
{
    match event {
        PlatformEvent::Media(media) => AppInput::AppleMedia(media),
        PlatformEvent::Battery(battery) => AppInput::Battery(battery),
        PlatformEvent::Time(time) => AppInput::Time(TimeOfDay::from(time)),
        PlatformEvent::Tick => AppInput::Tick,
        PlatformEvent::Touch(touch) => AppInput::Touch(touch),
        PlatformEvent::Button => AppInput::ButtonPressed,
    }
}

/// What the platform is to do after one event.
#[derive(Debug)]
pub struct Dispatch {
    /// The command to put into the queue for the host, if any.
    pub send: Option<MediaControl>,
    /// What to draw.
    pub draw: Vec<DrawCommand>,
}

/// The application together with the fan-in that feeds it.
pub struct EventLoop {
    app: App,
}

impl View for EventLoop {
    type V = AppModel;

    closed spec fn view(&self) -> AppModel {
        self.app@
    }
}

impl EventLoop {
    /// Device time has not run backwards since the loop started.
    pub open spec fn wf(&self) -> bool {
        self@.wf()
    }

    /// Starts the application at device time `ms_since_boot`, and says what
    /// to draw first.
    pub fn start(ms_since_boot: u64) -> (r: (EventLoop, Vec<DrawCommand>))
        ensures
            r.0.wf(),
            r.0@ == AppModel::initial(ms_since_boot as nat),
            draw_models(r.1@) == seq![crate::display::DrawModel::Background] + r.0@.frame(),
    {
        let (app, commands) = App::init(ms_since_boot);
        (EventLoop { app }, commands)
    }

    /// Hands the message of the fault that ended the last run, where there
    /// is one, to the application as a fatal error. Without a message
    /// nothing changes and nothing is drawn.
    pub fn report_panic(&mut self, ms_since_boot: u64, panic_message: Option<&'static str>) -> (draw:
        Vec<DrawCommand>)
        requires
            old(self).wf(),
            old(self)@.time.now <= ms_since_boot,
        ensures
            final(self).wf(),
            panic_message matches Some(message) ==> {
                &&& final(self)@ == old(self)@.step(
                    ms_since_boot as nat,
                    AppInput::CriticalError(message),
                )
                &&& draw_models(draw@) == final(self)@.rendering(AppInput::CriticalError(message))
            },
            panic_message is None ==> final(self)@ == old(self)@ && draw@.len() == 0,
    {
        match panic_message {
            Some(message) => {
                let (_, draw) = self.app.handle_event(
                    ms_since_boot,
                    AppInput::CriticalError(message),
                );
                draw
            },
            None => Vec::new(),
        }
    }

    /// Takes one event of the platform at device time `ms_since_boot`:
    /// maps it to its input, has the application process it, and says what
    /// to send to the host and what to draw.
    pub fn dispatch(&mut self, ms_since_boot: u64, event: PlatformEvent) -> (r: Dispatch)
        requires
            old(self).wf(),
            old(self)@.time.now <= ms_since_boot,
        ensures
            final(self).wf(),
            final(self)@ == old(self)@.step(ms_since_boot as nat, app_input(event)),
            r.send == command_to_send(old(self)@.output(app_input(event))),
            draw_models(r.draw@) == final(self)@.rendering(app_input(event)),
    {
        let input = to_app_input(event);
        let (output, draw) = self.app.handle_event(ms_since_boot, input);
        let send = match output {
            Some(AppOutput::MediaControl(control)) => Some(control),
            None => None,
        };
        Dispatch { send, draw }
    }

    /// The application.
    pub fn app(&self) -> (app: &App)
        ensures
            app@ == self@,
    {
        &self.app
    }
}

/// Every event of the platform becomes exactly one input, of the kind that
/// belongs to its source.
pub proof fn lemma_one_input_per_source(event: PlatformEvent)
    ensures
        event is Media <==> app_input(event) is AppleMedia,
        event is Battery <==> app_input(event) is Battery,
        event is Time <==> app_input(event) is Time,
        event is Tick <==> app_input(event) is Tick,
        event is Touch <==> app_input(event) is Touch,
        event is Button <==> app_input(event) is ButtonPressed,
        !(app_input(event) is CriticalError),
{
}

/// A command goes to the host only for a touch, and only while a track is
/// known.
pub proof fn lemma_commands_come_from_touches(state: AppModel, event: PlatformEvent)
    ensures
        command_to_send(state.output(app_input(event))) is Some ==> event is Touch
            && state.media is Some,
{
}

} // verus!
