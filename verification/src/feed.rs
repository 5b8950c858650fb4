//! The supervisor of the realtime connection, as a machine that is fed one
//! event at a time and answers each with the next thing to do.
//!
//! The caller owns the socket, the clock and the disk. It performs the
//! action that `Supervisor::step` hands out and reports what came of it as
//! the next event. The machine owns the credentials: nothing else writes
//! them while it runs.

use vstd::prelude::*;
use crate::protocol::{Command, decode_payload, ends_session, login_line, login_text, payload_command};
use crate::types::{Config, ConfigView, has_credentials};

verus! {

/// How long the supervisor waits before it connects again, in milliseconds.
pub const RECONNECT_DELAY_MS: u64 = 5000;

/// The state of the control channel.
#[derive(Clone, Copy, Debug, PartialEq, Eq, Structural)]
pub enum ConnectionState {
    Disconnected,
    Connecting,
    Authenticated,
    Reading,
}

/// Where the supervisor stands: each phase but `Idle` and `Halted` waits
/// for the outcome of one action.
#[derive(Clone, Copy, Debug, PartialEq, Eq, Structural)]
pub enum Phase {
    /// Nothing has happened yet.
    Idle,
    /// The pass over the backlog runs, before any connection.
    Flushing,
    /// The transport is being opened and the login line sent.
    Connecting,
    /// Logged in; no frame has arrived yet.
    Authenticated,
    /// Frames are being read.
    Reading,
    /// A pass over new messages runs; the read loop waits for it.
    Syncing,
    /// The cleared credentials are being stored.
    Invalidating,
    /// The logout signal is being sent.
    Announcing,
    /// The reconnect delay runs.
    Waiting,
    /// The supervisor has failed for good.
    Halted,
}

/// One frame of the control channel, reduced to what the supervisor reads.
#[derive(Clone, Debug, PartialEq, Eq)]
pub enum Frame {
    Text,
    Binary(Vec<u8>),
    Ping,
    Pong,
    Close,
    Raw,
}

pub ghost enum FrameView {
    Text,
    Binary(Seq<u8>),
    Ping,
    Pong,
    Close,
    Raw,
}

impl View for Frame {
    type V = FrameView;

    open spec fn view(&self) -> FrameView {
        match *self {
            Frame::Text => FrameView::Text,
            Frame::Binary(payload) => FrameView::Binary(payload@),
            Frame::Ping => FrameView::Ping,
            Frame::Pong => FrameView::Pong,
            Frame::Close => FrameView::Close,
            Frame::Raw => FrameView::Raw,
        }
    }
}

/// What the caller reports to the supervisor.
#[derive(Clone, Debug, PartialEq, Eq)]
pub enum FeedEvent {
    /// The supervisor is asked to begin.
    Started,
    /// A pass over the messages has ended, well or badly.
    PassEnded,
    /// The transport is open and the login line is out.
    Connected,
    /// Opening the transport or sending the login line failed.
    ConnectFailed,
    /// A frame arrived.
    Received(Frame),
    /// Reading the next frame failed.
    ReadFailed,
    /// The stream of frames ended.
    StreamEnded,
    /// The record was stored, or the attempt to store it was given up.
    Saved,
    /// The logout signal was taken.
    LogoutDelivered,
    /// Nobody listens for the logout signal any more.
    LogoutRefused,
    /// The delay is over.
    DelayElapsed,
}

pub ghost enum FeedEventView {
    Started,
    PassEnded,
    Connected,
    ConnectFailed,
    Received(FrameView),
    ReadFailed,
    StreamEnded,
    Saved,
    LogoutDelivered,
    LogoutRefused,
    DelayElapsed,
}

impl View for FeedEvent {
    type V = FeedEventView;

    open spec fn view(&self) -> FeedEventView {
        match *self {
            FeedEvent::Started => FeedEventView::Started,
            FeedEvent::PassEnded => FeedEventView::PassEnded,
            FeedEvent::Connected => FeedEventView::Connected,
            FeedEvent::ConnectFailed => FeedEventView::ConnectFailed,
            FeedEvent::Received(frame) => FeedEventView::Received(frame@),
            FeedEvent::ReadFailed => FeedEventView::ReadFailed,
            FeedEvent::StreamEnded => FeedEventView::StreamEnded,
            FeedEvent::Saved => FeedEventView::Saved,
            FeedEvent::LogoutDelivered => FeedEventView::LogoutDelivered,
            FeedEvent::LogoutRefused => FeedEventView::LogoutRefused,
            FeedEvent::DelayElapsed => FeedEventView::DelayElapsed,
        }
    }
}

/// Why the supervisor halted.
#[derive(Clone, Copy, Debug, PartialEq, Eq, Structural)]
pub enum FeedError {
    /// It was started without credentials: the login did not run first.
    NotLoggedIn,
    /// The logout signal could not be handed over.
    EventSinkClosed,
    /// An event came that does not answer the action that was handed out.
    OutOfSequence,
}

/// What the caller is to do next.
#[derive(Clone, Debug, PartialEq, Eq)]
pub enum FeedAction {
    /// Run one pass over the messages, then report `PassEnded`.
    RunPass,
    /// Open the transport and send `login` as its first frame.
    Connect { login: String },
    /// Read the next frame.
    Receive,
    /// Store the record as the supervisor now holds it.
    Save,
    /// Tell the application that the session is over.
    EmitLogout,
    /// Let `millis` milliseconds pass.
    Wait { millis: u64 },
    /// Stop: the supervisor will do nothing more.
    Fail(FeedError),
}

pub ghost enum FeedActionView {
    RunPass,
    Connect { login: Seq<char> },
    Receive,
    Save,
    EmitLogout,
    Wait { millis: u64 },
    Fail(FeedError),
}

impl View for FeedAction {
    type V = FeedActionView;

    open spec fn view(&self) -> FeedActionView {
        match *self {
            FeedAction::RunPass => FeedActionView::RunPass,
            FeedAction::Connect { login } => FeedActionView::Connect { login: login@ },
            FeedAction::Receive => FeedActionView::Receive,
            FeedAction::Save => FeedActionView::Save,
            FeedAction::EmitLogout => FeedActionView::EmitLogout,
            FeedAction::Wait { millis } => FeedActionView::Wait { millis },
            FeedAction::Fail(error) => FeedActionView::Fail(error),
        }
    }
}

/// The result of one step: the new phase, the action, the record.
pub ghost struct Turn {
    pub phase: Phase,
    pub action: FeedActionView,
    pub config: ConfigView,
}

/// The record after the service has ended the session: the secret and the
/// device identifier are gone, the rest stays.
pub open spec fn invalidated(config: ConfigView) -> ConfigView {
    ConfigView { secret: None, device_id: None, ..config }
}

/// A pause of the reconnect delay.
pub open spec fn pause(config: ConfigView) -> Turn {
    Turn {
        phase: Phase::Waiting,
        action: FeedActionView::Wait { millis: RECONNECT_DELAY_MS },
        config,
    }
}

/// The end of the supervisor.
pub open spec fn halt(error: FeedError, config: ConfigView) -> Turn {
    Turn { phase: Phase::Halted, action: FeedActionView::Fail(error), config }
}

/// Going on with the next frame.
pub open spec fn read_on(config: ConfigView) -> Turn {
    Turn { phase: Phase::Reading, action: FeedActionView::Receive, config }
}

/// A connection attempt: with credentials the login line goes out, without
/// them the supervisor pauses again.
pub open spec fn attempt(config: ConfigView) -> Turn {
    if has_credentials(config) {
        Turn {
            phase: Phase::Connecting,
            action: FeedActionView::Connect {
                login: login_text(config.device_id->0, config.secret->0),
            },
            config,
        }
    } else {
        pause(config)
    }
}

/// What a command asks of a supervisor that reads.
pub open spec fn on_command(command: Command, config: ConfigView) -> Turn {
    match command {
        Command::KeepAlive => read_on(config),
        Command::NewData => Turn {
            phase: Phase::Syncing,
            action: FeedActionView::RunPass,
            config,
        },
        Command::ReloadRequested => pause(config),
        Command::PermanentError | Command::SessionSupersededElsewhere => Turn {
            phase: Phase::Invalidating,
            action: FeedActionView::Save,
            config: invalidated(config),
        },
        Command::Unknown(_) => read_on(config),
    }
}

/// What a frame asks of a supervisor that reads: a close ends the reading,
/// a binary payload of one byte is a command, all else is passed over.
pub open spec fn on_frame(frame: FrameView, config: ConfigView) -> Turn {
    match frame {
        FrameView::Close => pause(config),
        FrameView::Binary(payload) => match payload_command(payload) {
            Some(command) => on_command(command, config),
            None => read_on(config),
        },
        _ => read_on(config),
    }
}

/// Whether an event reports the outcome of what a phase waits for.
pub open spec fn answers(event: FeedEventView, phase: Phase) -> bool {
    match phase {
        Phase::Idle => event is Started,
        Phase::Flushing | Phase::Syncing => event is PassEnded,
        Phase::Connecting => event is Connected || event is ConnectFailed,
        Phase::Authenticated | Phase::Reading => event is Received || event is ReadFailed
            || event is StreamEnded,
        Phase::Invalidating => event is Saved,
        Phase::Announcing => event is LogoutDelivered || event is LogoutRefused,
        Phase::Waiting => event is DelayElapsed,
        Phase::Halted => false,
    }
}

/// The supervisor's rule: the turn that a phase takes on an event.
pub open spec fn transition(phase: Phase, event: FeedEventView, config: ConfigView) -> Turn {
    if !answers(event, phase) {
        halt(FeedError::OutOfSequence, config)
    } else {
        match phase {
            Phase::Idle => if has_credentials(config) {
                Turn { phase: Phase::Flushing, action: FeedActionView::RunPass, config }
            } else {
                halt(FeedError::NotLoggedIn, config)
            },
            Phase::Flushing => attempt(config),
            Phase::Waiting => attempt(config),
            Phase::Connecting => if event is Connected {
                Turn { phase: Phase::Authenticated, action: FeedActionView::Receive, config }
            } else {
                pause(config)
            },
            Phase::Authenticated | Phase::Reading => match event {
                FeedEventView::Received(frame) => on_frame(frame, config),
                _ => pause(config),
            },
            Phase::Syncing => read_on(config),
            Phase::Invalidating => Turn {
                phase: Phase::Announcing,
                action: FeedActionView::EmitLogout,
                config,
            },
            Phase::Announcing => if event is LogoutDelivered {
                pause(config)
            } else {
                halt(FeedError::EventSinkClosed, config)
            },
            Phase::Halted => halt(FeedError::OutOfSequence, config),
        }
    }
}

/// The state of the control channel in a phase.
pub open spec fn connection_of(phase: Phase) -> ConnectionState {
    match phase {
        Phase::Idle | Phase::Flushing | Phase::Waiting | Phase::Halted =>
            ConnectionState::Disconnected,
        Phase::Connecting => ConnectionState::Connecting,
        Phase::Authenticated => ConnectionState::Authenticated,
        Phase::Reading | Phase::Syncing | Phase::Invalidating | Phase::Announcing =>
            ConnectionState::Reading,
    }
}

/// The supervisor: its phase and the record that it alone writes.
#[derive(Clone, Debug, PartialEq, Eq)]
pub struct Supervisor {
    pub phase: Phase,
    pub config: Config,
}

impl Supervisor {
    /// A supervisor that has not begun, over the given record.
    pub fn new(config: Config) -> (supervisor: Supervisor)
        ensures
            supervisor.phase == Phase::Idle,
            supervisor.config == config,
    {
        Supervisor { phase: Phase::Idle, config }
    }

    /// The state of the control channel.
    pub fn connection(&self) -> (state: ConnectionState)
        ensures
            state == connection_of(self.phase),
    {
        match self.phase {
            Phase::Idle | Phase::Flushing | Phase::Waiting | Phase::Halted =>
                ConnectionState::Disconnected,
            Phase::Connecting => ConnectionState::Connecting,
            Phase::Authenticated => ConnectionState::Authenticated,
            Phase::Reading | Phase::Syncing | Phase::Invalidating | Phase::Announcing =>
                ConnectionState::Reading,
        }
    }

    fn pause(&mut self) -> (action: FeedAction)
        ensures
            final(self).phase == Phase::Waiting,
            final(self).config == old(self).config,
            action@ == pause(old(self).config@).action,
    {
        self.phase = Phase::Waiting;
        FeedAction::Wait { millis: RECONNECT_DELAY_MS }
    }

    fn halt(&mut self, error: FeedError) -> (action: FeedAction)
        ensures
            final(self).phase == Phase::Halted,
            final(self).config == old(self).config,
            action@ == FeedActionView::Fail(error),
    {
        self.phase = Phase::Halted;
        FeedAction::Fail(error)
    }

    fn read_on(&mut self) -> (action: FeedAction)
        ensures
            final(self).phase == Phase::Reading,
            final(self).config == old(self).config,
            action@ == FeedActionView::Receive,
    {
        self.phase = Phase::Reading;
        FeedAction::Receive
    }

    fn attempt(&mut self) -> (action: FeedAction)
        ensures
            final(self).phase == attempt(old(self).config@).phase,
            final(self).config == old(self).config,
            action@ == attempt(old(self).config@).action,
    {
        let login = match (&self.config.device_id, &self.config.secret) {
            (Some(device_id), Some(secret)) => Some(login_line(device_id.as_str(), secret.as_str())),
            _ => None,
        };
        match login {
            Some(login) => {
                self.phase = Phase::Connecting;
                FeedAction::Connect { login }
            },
            None => self.pause(),
        }
    }

    fn on_command(&mut self, command: Command) -> (action: FeedAction)
        ensures
            final(self).phase == on_command(command, old(self).config@).phase,
            final(self).config@ == on_command(command, old(self).config@).config,
            action@ == on_command(command, old(self).config@).action,
    {
        match command {
            Command::KeepAlive => self.read_on(),
            Command::NewData => {
                self.phase = Phase::Syncing;
                FeedAction::RunPass
            },
            Command::ReloadRequested => self.pause(),
            Command::PermanentError | Command::SessionSupersededElsewhere => {
                self.config.secret = None;
                self.config.device_id = None;
                self.phase = Phase::Invalidating;
                FeedAction::Save
            },
            Command::Unknown(_) => self.read_on(),
        }
    }

    fn on_frame(&mut self, frame: &Frame) -> (action: FeedAction)
        ensures
            final(self).phase == on_frame(frame@, old(self).config@).phase,
            final(self).config@ == on_frame(frame@, old(self).config@).config,
            action@ == on_frame(frame@, old(self).config@).action,
    {
        match frame {
            Frame::Close => self.pause(),
            Frame::Binary(payload) => match decode_payload(payload.as_slice()) {
                Some(command) => self.on_command(command),
                None => self.read_on(),
            },
            _ => self.read_on(),
        }
    }

    /// Takes one event and says what to do next.
    ///
    /// The new phase, the record and the action are those of `transition`.
    /// An event that does not answer the action handed out before halts
    /// the supervisor; so does a start without credentials, and a logout
    /// signal that nobody takes. Nothing else ever does.
    pub fn step(&mut self, event: FeedEvent) -> (action: FeedAction)
        ensures
            final(self).phase == transition(old(self).phase, event@, old(self).config@).phase,
            final(self).config@ == transition(old(self).phase, event@, old(self).config@).config,
            action@ == transition(old(self).phase, event@, old(self).config@).action,
    {
        match self.phase {
            Phase::Idle => match event {
                FeedEvent::Started => {
                    if self.config.secret.is_some() && self.config.device_id.is_some() {
                        self.phase = Phase::Flushing;
                        FeedAction::RunPass
                    } else {
                        self.halt(FeedError::NotLoggedIn)
                    }
                },
                _ => self.halt(FeedError::OutOfSequence),
            },
            Phase::Flushing => match event {
                FeedEvent::PassEnded => self.attempt(),
                _ => self.halt(FeedError::OutOfSequence),
            },
            Phase::Waiting => match event {
                FeedEvent::DelayElapsed => self.attempt(),
                _ => self.halt(FeedError::OutOfSequence),
            },
            Phase::Connecting => match event {
                FeedEvent::Connected => {
                    self.phase = Phase::Authenticated;
                    FeedAction::Receive
                },
                FeedEvent::ConnectFailed => self.pause(),
                _ => self.halt(FeedError::OutOfSequence),
            },
            Phase::Authenticated | Phase::Reading => match event {
                FeedEvent::Received(frame) => self.on_frame(&frame),
                FeedEvent::ReadFailed => self.pause(),
                FeedEvent::StreamEnded => self.pause(),
                _ => self.halt(FeedError::OutOfSequence),
            },
            Phase::Syncing => match event {
                FeedEvent::PassEnded => self.read_on(),
                _ => self.halt(FeedError::OutOfSequence),
            },
            Phase::Invalidating => match event {
                FeedEvent::Saved => {
                    self.phase = Phase::Announcing;
                    FeedAction::EmitLogout
                },
                _ => self.halt(FeedError::OutOfSequence),
            },
            Phase::Announcing => match event {
                FeedEvent::LogoutDelivered => self.pause(),
                FeedEvent::LogoutRefused => self.halt(FeedError::EventSinkClosed),
                _ => self.halt(FeedError::OutOfSequence),
            },
            Phase::Halted => self.halt(FeedError::OutOfSequence),
        }
    }
}

/// When the service ends the session while the supervisor reads, the secret
/// and the device identifier leave the record and nothing else in it
/// changes; the record is stored, then one logout signal goes out, then
/// the reading is over and the reconnect delay runs. After the delay the
/// supervisor finds no credentials and pauses again instead of connecting.
pub proof fn lemma_session_end(phase: Phase, payload: Seq<u8>, config: ConfigView)
    requires
        phase == Phase::Authenticated || phase == Phase::Reading,
        payload_command(payload) matches Some(command) && ends_session(command),
    ensures
        ({
            let cleared = ConfigView { secret: None, device_id: None, ..config };
            let first = transition(
                phase,
                FeedEventView::Received(FrameView::Binary(payload)),
                config,
            );
            let second = transition(first.phase, FeedEventView::Saved, first.config);
            let third = transition(second.phase, FeedEventView::LogoutDelivered, second.config);
            let fourth = transition(third.phase, FeedEventView::DelayElapsed, third.config);
            &&& first.config == cleared
            &&& first.action == FeedActionView::Save
            &&& second.config == cleared
            &&& second.action == FeedActionView::EmitLogout
            &&& third.config == cleared
            &&& third.action == (FeedActionView::Wait { millis: RECONNECT_DELAY_MS })
            &&& connection_of(third.phase) == ConnectionState::Disconnected
            &&& fourth.config == cleared
            &&& fourth.action == (FeedActionView::Wait { millis: RECONNECT_DELAY_MS })
        }),
{
}

/// The logout signal goes out in one place only: when the cleared record
/// has been stored. The record changes in one place only: when a command
/// that ends the session is read.
pub proof fn lemma_single_writer(phase: Phase, event: FeedEventView, config: ConfigView)
    ensures
        transition(phase, event, config).action == FeedActionView::EmitLogout ==> phase
            == Phase::Invalidating && event is Saved,
        transition(phase, event, config).config != config ==> {
            &&& phase == Phase::Authenticated || phase == Phase::Reading
            &&& event matches FeedEventView::Received(FrameView::Binary(payload))
            &&& payload_command(payload) matches Some(command)
            &&& ends_session(command)
            &&& transition(phase, event, config).config == invalidated(config)
        },
{
}

/// The supervisor connects in two places only: when the pass over the
/// backlog has ended and when the reconnect delay is over. Whenever it
/// stops reading or fails to connect it asks for the full delay first.
pub proof fn lemma_connect_after_delay(phase: Phase, event: FeedEventView, config: ConfigView)
    ensures
        transition(phase, event, config).action is Connect ==> {
            &&& has_credentials(config)
            &&& (phase == Phase::Flushing && event is PassEnded) || (phase == Phase::Waiting
                && event is DelayElapsed)
        },
        transition(phase, event, config).phase == Phase::Waiting ==> transition(
            phase,
            event,
            config,
        ).action == (FeedActionView::Wait { millis: RECONNECT_DELAY_MS }),
        connection_of(phase) != ConnectionState::Disconnected && connection_of(
            transition(phase, event, config).phase,
        ) == ConnectionState::Disconnected && answers(event, phase) && !(event is LogoutRefused)
            ==> transition(phase, event, config).phase == Phase::Waiting,
{
}

/// The supervisor does not give up: an event that answers the pending
/// action halts it only at the start, without credentials, or when the
/// logout signal cannot be handed over.
pub proof fn lemma_never_gives_up(phase: Phase, event: FeedEventView, config: ConfigView)
    requires
        answers(event, phase),
    ensures
        transition(phase, event, config).phase == Phase::Halted <==> (phase == Phase::Idle
            && !has_credentials(config)) || (phase == Phase::Announcing && event is LogoutRefused),
        transition(phase, event, config).phase != Phase::Halted ==> !(transition(
            phase,
            event,
            config,
        ).action is Fail),
{
}

/// Commands are taken in the order of their arrival, one frame a step:
/// a keep-alive, an unknown byte and a payload of another length leave
/// the record alone and ask for the next frame; new data asks for a pass
/// and, once it has ended, for the next frame.
pub proof fn lemma_reading_goes_on(phase: Phase, payload: Seq<u8>, config: ConfigView)
    requires
        phase == Phase::Authenticated || phase == Phase::Reading,
    ensures
        ({
            let turn = transition(
                phase,
                FeedEventView::Received(FrameView::Binary(payload)),
                config,
            );
            &&& (payload_command(payload) is None || payload_command(payload) == Some(
                Command::KeepAlive,
            ) || payload_command(payload)->0 is Unknown) ==> turn == read_on(config)
            &&& payload_command(payload) == Some(Command::NewData) ==> {
                &&& turn.action == FeedActionView::RunPass
                &&& turn.config == config
                &&& transition(turn.phase, FeedEventView::PassEnded, config) == read_on(config)
            }
            &&& payload_command(payload) == Some(Command::ReloadRequested) ==> turn == pause(
                config,
            )
        }),
{
}

} // verus!
