//! The client side of a connection to the host, as a state machine: once
//! per connection it reads the battery level and the time, subscribes to
//! the media service, discards the commands that were queued before, and
//! then relays notifications and commands. The platform performs each
//! request on the link and hands back what came of it. What is handed back
//! without having been asked for changes nothing: the request is made again.

use crate::ble::{CurrentTime, MyVec};
use crate::interface::{AppleMediaServiceData, MediaControl, MediaView};
use crate::media::{
    encode_remote_command, encode_track_subscription, entity_update, remote_command_id,
    track_subscription, MediaAssembler,
};
use vstd::prelude::*;

verus! {

/// How far the client has come on its connection.
#[derive(Clone, Copy, Debug, PartialEq, Eq, Structural)]
pub enum ClientStage {
    /// The battery level of the host is being read.
    Battery,
    /// The time of the host is being read.
    Clock,
    /// Notifications of the command channel are being enabled.
    CommandNotifications,
    /// Notifications of the track are being enabled.
    EntityNotifications,
    /// The attributes of the track are being subscribed to.
    Subscription,
    /// Commands that were queued before are being discarded.
    Drain,
    /// Notifications and commands are relayed.
    Steady,
    /// The connection attempt has failed.
    Failed,
}

impl ClientStage {
    /// The stages that set the connection up.
    pub open spec fn is_bootstrap(self) -> bool {
        self is Battery || self is Clock || self is CommandNotifications
            || self is EntityNotifications || self is Subscription
    }
}

/// What the platform reports to the client.
#[derive(Clone, Copy, Debug)]
pub enum ClientEvent {
    /// A service of the host was not found.
    DiscoveryFailed,
    /// A read on the link failed.
    ReadFailed,
    /// A write on the link failed.
    WriteFailed,
    /// The battery level of the host was read.
    BatteryLevel(u8),
    /// The time of the host was read.
    CurrentTime(CurrentTime),
    /// A write on the link was done.
    Written,
    /// The queue of commands was polled: a command that was waiting, or none.
    Polled(Option<MediaControl>),
    /// The host notified an attribute of an entity.
    EntityUpdate(MyVec),
    /// The host notified the command channel.
    RemoteCommand(u8),
    /// The application issued a command.
    Command(MediaControl),
    /// Listening ended without a command.
    ListenEnded,
}

impl ClientEvent {
    /// The value that the event carries is well-formed.
    pub open spec fn wf(self) -> bool {
        self matches ClientEvent::EntityUpdate(notification) ==> notification.wf()
    }

    /// The events that report a failure on the link.
    pub open spec fn is_failure(self) -> bool {
        self is DiscoveryFailed || self is ReadFailed || self is WriteFailed
    }
}

/// What the client asks the platform to do next.
#[derive(Clone, Copy, Debug)]
pub enum ClientRequest {
    /// Find the battery service of the host and read its level.
    ReadBatteryLevel,
    /// Find the time service of the host and read the time once.
    ReadCurrentTime,
    /// Find the media service and enable notifications of its command channel.
    EnableRemoteCommandNotifications,
    /// Enable notifications of the attributes of entities.
    EnableEntityUpdateNotifications,
    /// Write this message to the channel of the attributes of entities.
    WriteEntityUpdate(MyVec),
    /// Take one command from the queue without waiting.
    PollCommand,
    /// Wait for a notification of the host or a command of the application.
    Listen,
    /// Write this byte to the command channel, then listen again.
    WriteRemoteCommand(u8),
    /// Give the connection up.
    Stop,
}

/// What the client asks the platform to do next, as plain values.
pub enum RequestModel {
    ReadBatteryLevel,
    ReadCurrentTime,
    EnableRemoteCommandNotifications,
    EnableEntityUpdateNotifications,
    WriteEntityUpdate(Seq<u8>),
    PollCommand,
    Listen,
    WriteRemoteCommand(u8),
    Stop,
}

impl View for ClientRequest {
    type V = RequestModel;

    open spec fn view(&self) -> RequestModel {
        match *self {
            ClientRequest::ReadBatteryLevel => RequestModel::ReadBatteryLevel,
            ClientRequest::ReadCurrentTime => RequestModel::ReadCurrentTime,
            ClientRequest::EnableRemoteCommandNotifications =>
                RequestModel::EnableRemoteCommandNotifications,
            ClientRequest::EnableEntityUpdateNotifications =>
                RequestModel::EnableEntityUpdateNotifications,
            ClientRequest::WriteEntityUpdate(message) => RequestModel::WriteEntityUpdate(message@),
            ClientRequest::PollCommand => RequestModel::PollCommand,
            ClientRequest::Listen => RequestModel::Listen,
            ClientRequest::WriteRemoteCommand(id) => RequestModel::WriteRemoteCommand(id),
            ClientRequest::Stop => RequestModel::Stop,
        }
    }
}

/// What the client hands to the application.
#[derive(Clone, Copy, Debug)]
pub enum ClientPublish {
    /// The time that the host reported.
    Time(CurrentTime),
    /// The record of the track that is playing.
    Media(AppleMediaServiceData),
    /// A command that has no byte on the wire yet: it was not sent.
    Unsupported(MediaControl),
}

/// What the client hands to the application, as plain values.
pub enum PublishModel {
    Time(CurrentTime),
    Media(MediaView),
    Unsupported(MediaControl),
}

impl View for ClientPublish {
    type V = PublishModel;

    open spec fn view(&self) -> PublishModel {
        match *self {
            ClientPublish::Time(time) => PublishModel::Time(time),
            ClientPublish::Media(media) => PublishModel::Media(media@),
            ClientPublish::Unsupported(command) => PublishModel::Unsupported(command),
        }
    }
}

/// What one step of the client leads to.
#[derive(Clone, Copy, Debug)]
pub struct ClientStep {
    /// What to hand to the application, if anything.
    pub publish: Option<ClientPublish>,
    /// What to do next on the link.
    pub request: ClientRequest,
}

/// The client, as plain values.
pub struct ClientModel {
    pub stage: ClientStage,
    /// The attributes of the track as reported so far.
    pub media: MediaView,
}

impl ClientModel {
    /// The client of a connection that has just been established.
    pub open spec fn start() -> ClientModel {
        ClientModel { stage: ClientStage::Battery, media: MediaView::blank() }
    }

    /// Whether `event` ends the connection attempt: a failure while the
    /// connection is set up, but for a failed read of the battery level,
    /// which is tried again.
    pub open spec fn is_fatal(self, event: ClientEvent) -> bool {
        &&& self.stage.is_bootstrap()
        &&& event.is_failure()
        &&& !(self.stage is Battery && event is ReadFailed)
    }

    /// The stage after `event`.
    pub open spec fn next_stage(self, event: ClientEvent) -> ClientStage {
        if self.is_fatal(event) {
            ClientStage::Failed
        } else {
            match self.stage {
                ClientStage::Battery => if event is BatteryLevel {
                    ClientStage::Clock
                } else {
                    ClientStage::Battery
                },
                ClientStage::Clock => if event is CurrentTime {
                    ClientStage::CommandNotifications
                } else {
                    ClientStage::Clock
                },
                ClientStage::CommandNotifications => if event is Written {
                    ClientStage::EntityNotifications
                } else {
                    ClientStage::CommandNotifications
                },
                ClientStage::EntityNotifications => if event is Written {
                    ClientStage::Subscription
                } else {
                    ClientStage::EntityNotifications
                },
                ClientStage::Subscription => if event is Written {
                    ClientStage::Drain
                } else {
                    ClientStage::Subscription
                },
                ClientStage::Drain => if event matches ClientEvent::Polled(None) {
                    ClientStage::Steady
                } else {
                    ClientStage::Drain
                },
                ClientStage::Steady => ClientStage::Steady,
                ClientStage::Failed => ClientStage::Failed,
            }
        }
    }

    /// The client after `event`: its stage moves on, and in the steady
    /// stage a notification of the track updates the record.
    pub open spec fn step(self, event: ClientEvent) -> ClientModel {
        ClientModel {
            stage: self.next_stage(event),
            media: match event {
                ClientEvent::EntityUpdate(notification) if self.stage is Steady =>
                    self.media.updated(entity_update(notification@)),
                _ => self.media,
            },
        }
    }

    /// What is handed to the application on `event`: the time when it has
    /// been read; the record of the track when a notification in the
    /// steady stage completes it; and a command issued in the steady stage
    /// that cannot be put on the wire, so that it is not dropped in silence.
    pub open spec fn publication(self, event: ClientEvent) -> Option<PublishModel> {
        match event {
            ClientEvent::CurrentTime(time) if self.stage is Clock => Some(PublishModel::Time(time)),
            ClientEvent::EntityUpdate(notification) if self.stage is Steady
                && entity_update(notification@).completes_record() => Some(
                PublishModel::Media(self.media.updated(entity_update(notification@))),
            ),
            ClientEvent::Command(command) if self.stage is Steady && remote_command_id(
                command,
            ) is None => Some(PublishModel::Unsupported(command)),
            _ => None,
        }
    }

    /// What a stage waits for.
    pub open spec fn awaits(self, event: ClientEvent) -> bool {
        match self.stage {
            ClientStage::Battery => event is BatteryLevel,
            ClientStage::Clock => event is CurrentTime,
            ClientStage::CommandNotifications => event is Written,
            ClientStage::EntityNotifications => event is Written,
            ClientStage::Subscription => event is Written,
            ClientStage::Drain => event is Polled,
            ClientStage::Steady => event is EntityUpdate || event is Command,
            ClientStage::Failed => false,
        }
    }

    /// The byte to write for `event`: that of a command of the application
    /// in the steady stage, where the command has one.
    pub open spec fn command_to_write(self, event: ClientEvent) -> Option<u8> {
        match event {
            ClientEvent::Command(command) if self.stage is Steady => remote_command_id(command),
            _ => None,
        }
    }

    /// What the platform is asked to do after `event`.
    pub open spec fn request(self, event: ClientEvent) -> RequestModel {
        match self.next_stage(event) {
            ClientStage::Battery => RequestModel::ReadBatteryLevel,
            ClientStage::Clock => RequestModel::ReadCurrentTime,
            ClientStage::CommandNotifications => RequestModel::EnableRemoteCommandNotifications,
            ClientStage::EntityNotifications => RequestModel::EnableEntityUpdateNotifications,
            ClientStage::Subscription => RequestModel::WriteEntityUpdate(track_subscription()),
            ClientStage::Drain => RequestModel::PollCommand,
            ClientStage::Steady => match self.command_to_write(event) {
                Some(id) => RequestModel::WriteRemoteCommand(id),
                None => RequestModel::Listen,
            },
            ClientStage::Failed => RequestModel::Stop,
        }
    }
}

/// A connection on which nothing fails is set up in one order: the
/// battery level is read, then the time, which is handed to the
/// application; notifications of the command channel and of the track are
/// enabled; the attributes of the track are subscribed to; and the queue of
/// commands is polled until it is empty. Then the client listens.
pub proof fn lemma_bootstrap_order(level: u8, time: CurrentTime)
    ensures
        ({
            let s0 = ClientModel::start();
            let s1 = s0.step(ClientEvent::BatteryLevel(level));
            let s2 = s1.step(ClientEvent::CurrentTime(time));
            let s3 = s2.step(ClientEvent::Written);
            let s4 = s3.step(ClientEvent::Written);
            let s5 = s4.step(ClientEvent::Written);
            let s6 = s5.step(ClientEvent::Polled(None));
            &&& s0.request(ClientEvent::BatteryLevel(level)) == RequestModel::ReadCurrentTime
            &&& s1.request(ClientEvent::CurrentTime(time))
                == RequestModel::EnableRemoteCommandNotifications
            &&& s1.publication(ClientEvent::CurrentTime(time)) == Some(PublishModel::Time(time))
            &&& s2.request(ClientEvent::Written) == RequestModel::EnableEntityUpdateNotifications
            &&& s3.request(ClientEvent::Written) == RequestModel::WriteEntityUpdate(
                track_subscription(),
            )
            &&& s4.request(ClientEvent::Written) == RequestModel::PollCommand
            &&& s5.request(ClientEvent::Polled(None)) == RequestModel::Listen
            &&& s6.stage == ClientStage::Steady
            &&& s6.media == MediaView::blank()
        }),
{
}

/// A failed read of the battery level is tried again, as often as it fails.
pub proof fn lemma_battery_read_is_retried(client: ClientModel)
    requires
        client.stage is Battery,
    ensures
        client.step(ClientEvent::ReadFailed) == client,
        client.request(ClientEvent::ReadFailed) == RequestModel::ReadBatteryLevel,
{
}

/// While the connection is set up, a failure other than that of the read
/// of the battery level ends the attempt, and an attempt that has ended
/// stays ended.
pub proof fn lemma_bootstrap_failure_is_fatal(client: ClientModel, event: ClientEvent)
    ensures
        client.is_fatal(event) ==> client.step(event).stage == ClientStage::Failed
            && client.request(event) == RequestModel::Stop,
        client.stage is Failed ==> client.step(event).stage == ClientStage::Failed
            && client.request(event) == RequestModel::Stop,
{
}

/// A byte is written to the command channel only for a command that the
/// application issues in the steady stage, and only for the toggle between
/// play and pause. A command that is polled from the queue before that is
/// never written.
pub proof fn lemma_commands_only_in_steady_stage(client: ClientModel, event: ClientEvent)
    ensures
        client.request(event) is WriteRemoteCommand <==> client.stage is Steady && event
            == ClientEvent::Command(MediaControl::TogglePlayPause),
        client.request(event) is WriteRemoteCommand ==> client.request(event)
            == RequestModel::WriteRemoteCommand(2),
{
}

/// The record of the track is handed to the application by a notification
/// of the title in the steady stage, and by nothing else.
pub proof fn lemma_media_published_on_title(client: ClientModel, event: ClientEvent)
    ensures
        client.publication(event) matches Some(PublishModel::Media(record)) ==> {
            &&& client.stage is Steady
            &&& event matches ClientEvent::EntityUpdate(notification)
            &&& entity_update(notification@).completes_record()
            &&& record == client.step(event).media
        },
        event matches ClientEvent::EntityUpdate(notification) ==> (client.stage is Steady
            && entity_update(notification@).completes_record() ==> client.publication(event)
            == Some(PublishModel::Media(client.step(event).media))),
{
}

/// A command that the application issues in the steady stage is either
/// written to the host or handed back as one that cannot be written: none
/// is dropped in silence.
pub proof fn lemma_no_command_is_dropped_in_silence(client: ClientModel, command: MediaControl)
    requires
        client.stage is Steady,
    ensures
        client.request(ClientEvent::Command(command)) is WriteRemoteCommand
            != (client.publication(ClientEvent::Command(command)) == Some(
            PublishModel::Unsupported(command),
        )),
{
}

/// What is reported without being waited for, and is no failure, changes
/// nothing, and neither does a command that is polled and discarded.
pub proof fn lemma_stray_event_changes_nothing(client: ClientModel, event: ClientEvent)
    requires
        !client.awaits(event) || event matches ClientEvent::Polled(Some(_)),
        !event.is_failure(),
    ensures
        client.step(event) == client,
        client.publication(event) is None,
{
}

/// The place of a stage in the order in which a connection goes through
/// them.
pub open spec fn stage_rank(stage: ClientStage) -> nat {
    match stage {
        ClientStage::Battery => 0,
        ClientStage::Clock => 1,
        ClientStage::CommandNotifications => 2,
        ClientStage::EntityNotifications => 3,
        ClientStage::Subscription => 4,
        ClientStage::Drain => 5,
        ClientStage::Steady => 6,
        ClientStage::Failed => 7,
    }
}

/// The client never goes back: an event leaves it in its stage, takes it
/// to the next one, or ends the attempt.
pub proof fn lemma_stages_only_advance(client: ClientModel, event: ClientEvent)
    ensures
        ({
            let next = client.step(event).stage;
            ||| next == client.stage
            ||| stage_rank(next) == stage_rank(client.stage) + 1
            ||| next is Failed
        }),
{
}

/// The time of the host is handed to the application when the clock stage
/// ends, and at no other time: once on each connection.
pub proof fn lemma_time_published_once(client: ClientModel, event: ClientEvent)
    ensures
        client.publication(event) matches Some(PublishModel::Time(time)) ==> {
            &&& client.stage is Clock
            &&& event == ClientEvent::CurrentTime(time)
            &&& client.step(event).stage is CommandNotifications
        },
        client.stage is Clock && event is CurrentTime ==> client.publication(event) is Some,
{
}

/// The steady stage does not end by itself: whatever is reported, the
/// client stays in it.
pub proof fn lemma_steady_stage_lasts(client: ClientModel, event: ClientEvent)
    requires
        client.stage is Steady,
    ensures
        client.step(event).stage == ClientStage::Steady,
{
}

/// The record is only touched in the steady stage.
pub proof fn lemma_media_untouched_before_steady(client: ClientModel, event: ClientEvent)
    requires
        !(client.stage is Steady),
    ensures
        client.step(event).media == client.media,
        !(client.publication(event) matches Some(PublishModel::Media(_))),
{
}

/// The client side of one connection to the host.
#[derive(Clone, Copy, Debug)]
pub struct HostClient {
    stage: ClientStage,
    media: MediaAssembler,
}

impl View for HostClient {
    type V = ClientModel;

    closed spec fn view(&self) -> ClientModel {
        ClientModel { stage: self.stage, media: self.media@ }
    }
}

impl HostClient {
    /// The client of a connection that has just been established, and its
    /// first request: to read the battery level of the host.
    pub fn new() -> (r: (HostClient, ClientRequest))
        ensures
            r.0@ == ClientModel::start(),
            r.1@ == RequestModel::ReadBatteryLevel,
    {
        (
            HostClient { stage: ClientStage::Battery, media: MediaAssembler::new() },
            ClientRequest::ReadBatteryLevel,
        )
    }

    /// How far the client has come.
    pub fn stage(&self) -> (stage: ClientStage)
        ensures
            stage == self@.stage,
    {
        self.stage
    }

    /// Takes what came of the last request, and says what to hand to the
    /// application and what to do next.
    pub fn handle(&mut self, event: ClientEvent) -> (step: ClientStep)
        requires
            event.wf(),
        ensures
            final(self)@ == old(self)@.step(event),
            step.request@ == old(self)@.request(event),
            step.publish is Some <==> old(self)@.publication(event) is Some,
            step.publish matches Some(publish) ==> Some(publish@) == old(self)@.publication(event),
    {
        let mut publish: Option<ClientPublish> = None;
        let mut command: Option<u8> = None;
        let failure = match event {
            ClientEvent::DiscoveryFailed => true,
            ClientEvent::ReadFailed => true,
            ClientEvent::WriteFailed => true,
            _ => false,
        };
        let next = match self.stage {
            ClientStage::Battery => match event {
                ClientEvent::BatteryLevel(_) => ClientStage::Clock,
                // The level may not be there yet right after the
                // connection was made: the read is tried again.
                ClientEvent::ReadFailed => ClientStage::Battery,
                _ => if failure {
                    ClientStage::Failed
                } else {
                    ClientStage::Battery
                },
            },
            ClientStage::Clock => match event {
                ClientEvent::CurrentTime(time) => {
                    // The host hardly ever notifies the time, so the one
                    // value that was read is handed on.
                    publish = Some(ClientPublish::Time(time));
                    ClientStage::CommandNotifications
                },
                _ => if failure {
                    ClientStage::Failed
                } else {
                    ClientStage::Clock
                },
            },
            ClientStage::CommandNotifications => match event {
                ClientEvent::Written => ClientStage::EntityNotifications,
                _ => if failure {
                    ClientStage::Failed
                } else {
                    ClientStage::CommandNotifications
                },
            },
            ClientStage::EntityNotifications => match event {
                ClientEvent::Written => ClientStage::Subscription,
                _ => if failure {
                    ClientStage::Failed
                } else {
                    ClientStage::EntityNotifications
                },
            },
            ClientStage::Subscription => match event {
                ClientEvent::Written => ClientStage::Drain,
                _ => if failure {
                    ClientStage::Failed
                } else {
                    ClientStage::Subscription
                },
            },
            ClientStage::Drain => match event {
                // A command that was issued before the connection was set
                // up is not acted on.
                ClientEvent::Polled(None) => ClientStage::Steady,
                _ => ClientStage::Drain,
            },
            ClientStage::Steady => {
                match event {
                    ClientEvent::EntityUpdate(notification) => {
                        match self.media.on_notification(&notification) {
                            Some(record) => {
                                publish = Some(ClientPublish::Media(record));
                            },
                            None => {},
                        }
                    },
                    ClientEvent::Command(control) => {
                        command = encode_remote_command(control);
                        if command.is_none() {
                            publish = Some(ClientPublish::Unsupported(control));
                        }
                    },
                    _ => {},
                }
                ClientStage::Steady
            },
            ClientStage::Failed => ClientStage::Failed,
        };
        self.stage = next;
        let request = match next {
            ClientStage::Battery => ClientRequest::ReadBatteryLevel,
            ClientStage::Clock => ClientRequest::ReadCurrentTime,
            ClientStage::CommandNotifications => ClientRequest::EnableRemoteCommandNotifications,
            ClientStage::EntityNotifications => ClientRequest::EnableEntityUpdateNotifications,
            ClientStage::Subscription => ClientRequest::WriteEntityUpdate(
                encode_track_subscription(),
            ),
            ClientStage::Drain => ClientRequest::PollCommand,
            ClientStage::Steady => match command {
                Some(id) => ClientRequest::WriteRemoteCommand(id),
                None => ClientRequest::Listen,
            },
            ClientStage::Failed => ClientRequest::Stop,
        };
        ClientStep { publish, request }
    }
}

} // verus!
