//! The course of one run, as a machine that a host program drives.
//!
//! A [`Session`] never touches the outside world. At every moment it asks
//! for exactly one [`Action`]; the host performs it and reports the
//! [`Event`] that answers it; the session moves on. An event that does not
//! answer the pending action changes nothing. What the session decides is
//! defined by the model [`SessionView`], and [`Session::advance`] and
//! [`Session::action`] are proved to compute it.

use vstd::prelude::*;
use crate::message_receiver::{Message, MessageView, RobloxMessage};
use crate::place_runner::{
    execution_cmd, plugin_file_name, LaunchCommand, LaunchCommandView, PlaceRunner,
    PlaceRunnerView,
};

verus! {

/// Longest wait, in seconds, for the plugin's first message.
pub const HANDSHAKE_TIMEOUT_SECS: u64 = 60;

/// Why a run failed.
#[derive(Clone, Copy, Debug, PartialEq, Eq, Structural)]
pub enum RunError {
    /// No Studio installation was found.
    Environment,
    /// The plugin file could not be written.
    ArtifactWrite,
    /// The plugin file could not be removed.
    ArtifactRemove,
    /// Studio could not be started.
    Process,
    /// The plugin's first message was not a start signal.
    ProtocolViolation,
    /// The plugin sent nothing within the handshake bound.
    Timeout,
    /// The output channel was closed with messages left to deliver.
    RelayDelivery,
}

impl RunError {
    /// The cause, in words.
    pub open spec fn text(self) -> Seq<char> {
        match self {
            RunError::Environment => "Could not locate a Roblox Studio installation."@,
            RunError::ArtifactWrite => "Could not write the plugin file"@,
            RunError::ArtifactRemove => "Could not remove the plugin file"@,
            RunError::Process => "Could not start Roblox Studio"@,
            RunError::ProtocolViolation => "Invalid first message received from Roblox Studio plugin"@,
            RunError::Timeout => "Timeout reached while waiting for Roblox Studio to come online"@,
            RunError::RelayDelivery => "The output channel was closed before every message was delivered"@,
        }
    }

    /// The cause, in words.
    pub fn message(&self) -> (message: String)
        ensures
            message@ == self.text(),
    {
        match self {
            RunError::Environment => "Could not locate a Roblox Studio installation.".to_owned(),
            RunError::ArtifactWrite => "Could not write the plugin file".to_owned(),
            RunError::ArtifactRemove => "Could not remove the plugin file".to_owned(),
            RunError::Process => "Could not start Roblox Studio".to_owned(),
            RunError::ProtocolViolation => {
                "Invalid first message received from Roblox Studio plugin".to_owned()
            },
            RunError::Timeout => {
                "Timeout reached while waiting for Roblox Studio to come online".to_owned()
            },
            RunError::RelayDelivery => {
                "The output channel was closed before every message was delivered".to_owned()
            },
        }
    }
}

/// Where a run stands. Each phase waits on one action.
#[derive(Clone, Copy, Debug, PartialEq, Eq, Structural)]
pub enum Phase {
    Locating,
    WritingArtifact,
    StartingRelay,
    Spawning,
    AwaitingStart,
    Relaying,
    Delivering,
    Closing,
    StoppingRelay,
    RemovingArtifact,
    Killing,
    Finished,
}

/// What the host reports back after performing an action.
#[derive(Debug, PartialEq, Eq)]
pub enum Event {
    /// Studio was found; its executable is at this path.
    Located(String),
    /// The action was carried out.
    Completed,
    /// The action could not be carried out.
    Failed,
    /// The relay handed over its oldest message.
    Received(Message),
    /// The bounded wait ran out with nothing received.
    TimedOut,
}

/// The mathematical value of an [`Event`].
pub enum EventView {
    Located(Seq<char>),
    Completed,
    Failed,
    Received(MessageView),
    TimedOut,
}

impl View for Event {
    type V = EventView;

    open spec fn view(&self) -> EventView {
        match self {
            Event::Located(path) => EventView::Located(path@),
            Event::Completed => EventView::Completed,
            Event::Failed => EventView::Failed,
            Event::Received(message) => EventView::Received(message@),
            Event::TimedOut => EventView::TimedOut,
        }
    }
}

/// What the session asks the host to do next.
#[derive(Debug, PartialEq, Eq)]
pub enum Action {
    /// Find the Studio installation. Answered by `Located` or `Failed`.
    LocateStudio,
    /// Write the plugin file under this name into Studio's plugin
    /// directory. Answered by `Completed` or `Failed`.
    WriteArtifact { file_name: String, port: u16, server_id: String, lua_script: String },
    /// Start the relay on the loopback port, in the background. Answered by
    /// `Completed`.
    StartRelay { port: u16, server_id: String },
    /// Start Studio. Answered by `Completed` or `Failed`.
    Spawn(LaunchCommand),
    /// Wait for the relay's first message, no longer than the bound.
    /// Answered by `Received` or `TimedOut`.
    AwaitStart { timeout_secs: u64 },
    /// Wait for the relay's next message, however long it takes. Answered
    /// by `Received`.
    AwaitMessage,
    /// Put this item on the output channel. Answered by `Completed`, or by
    /// `Failed` where the channel is closed.
    Send(Option<RobloxMessage>),
    /// Stop the relay. Answered by `Completed`.
    StopRelay,
    /// Delete the plugin file. Answered by `Completed` or `Failed`.
    RemoveArtifact { file_name: String },
    /// Kill the Studio process. Answered by `Completed`.
    KillProcess,
    /// The run is over; hand this result to the caller.
    Return(Result<(), RunError>),
}

/// The mathematical value of an [`Action`].
pub enum ActionView {
    LocateStudio,
    WriteArtifact { file_name: Seq<char>, port: u16, server_id: Seq<char>, lua_script: Seq<char> },
    StartRelay { port: u16, server_id: Seq<char> },
    Spawn(LaunchCommandView),
    AwaitStart { timeout_secs: u64 },
    AwaitMessage,
    Send(Option<Seq<char>>),
    StopRelay,
    RemoveArtifact { file_name: Seq<char> },
    KillProcess,
    Return(Result<(), RunError>),
}

impl View for Action {
    type V = ActionView;

    open spec fn view(&self) -> ActionView {
        match self {
            Action::LocateStudio => ActionView::LocateStudio,
            Action::WriteArtifact { file_name, port, server_id, lua_script } => {
                ActionView::WriteArtifact {
                    file_name: file_name@,
                    port: *port,
                    server_id: server_id@,
                    lua_script: lua_script@,
                }
            },
            Action::StartRelay { port, server_id } => ActionView::StartRelay {
                port: *port,
                server_id: server_id@,
            },
            Action::Spawn(command) => ActionView::Spawn(command@),
            Action::AwaitStart { timeout_secs } => ActionView::AwaitStart {
                timeout_secs: *timeout_secs,
            },
            Action::AwaitMessage => ActionView::AwaitMessage,
            Action::Send(item) => ActionView::Send(
                match item {
                    Some(message) => Some(message@),
                    None => None,
                },
            ),
            Action::StopRelay => ActionView::StopRelay,
            Action::RemoveArtifact { file_name } => ActionView::RemoveArtifact {
                file_name: file_name@,
            },
            Action::KillProcess => ActionView::KillProcess,
            Action::Return(result) => ActionView::Return(*result),
        }
    }
}

/// The model of a session: everything its decisions depend on.
#[verifier::ext_equal]
pub struct SessionView {
    pub runner: PlaceRunnerView,
    pub phase: Phase,
    /// The program that starts Studio; known once Studio is located.
    pub program: Seq<char>,
    /// The batch being delivered, and how many of its events went out.
    pub batch: Seq<Seq<char>>,
    pub cursor: nat,
    /// The first fatal error, once there is one.
    pub failure: Option<RunError>,
    /// The plugin file is on disk.
    pub artifact_present: bool,
    /// The relay is listening.
    pub relay_running: bool,
    /// The Studio process is alive.
    pub process_running: bool,
}

impl SessionView {
    /// A run that has not done anything yet.
    pub open spec fn start(runner: PlaceRunnerView) -> SessionView {
        SessionView {
            runner,
            phase: Phase::Locating,
            program: Seq::empty(),
            batch: Seq::empty(),
            cursor: 0,
            failure: None,
            artifact_present: false,
            relay_running: false,
            process_running: false,
        }
    }

    /// The run's result, which counts once the phase is `Finished`.
    pub open spec fn outcome(self) -> Result<(), RunError> {
        match self.failure {
            None => Ok(()),
            Some(error) => Err(error),
        }
    }

    /// Ends a run that holds nothing yet.
    pub open spec fn give_up(self, error: RunError) -> SessionView {
        SessionView { phase: Phase::Finished, failure: Some(error), ..self }
    }

    /// Begins the orderly end of a run: relay, plugin file, process.
    pub open spec fn wind_down(self, failure: Option<RunError>) -> SessionView {
        SessionView {
            phase: Phase::StoppingRelay,
            failure,
            batch: Seq::empty(),
            cursor: 0,
            ..self
        }
    }

    /// Where a run goes once the plugin file has been dealt with.
    pub open spec fn after_removal(self) -> SessionView {
        SessionView {
            phase: if self.process_running {
                Phase::Killing
            } else {
                Phase::Finished
            },
            ..self
        }
    }

    /// The session after the host has reported `event`.
    pub open spec fn advance(self, event: EventView) -> SessionView {
        match self.phase {
            Phase::Locating => match event {
                EventView::Located(app_path) => SessionView {
                    phase: Phase::WritingArtifact,
                    program: execution_cmd(app_path),
                    ..self
                },
                EventView::Failed => self.give_up(RunError::Environment),
                _ => self,
            },
            Phase::WritingArtifact => match event {
                EventView::Completed => SessionView {
                    phase: Phase::StartingRelay,
                    artifact_present: true,
                    ..self
                },
                EventView::Failed => self.give_up(RunError::ArtifactWrite),
                _ => self,
            },
            Phase::StartingRelay => match event {
                EventView::Completed => SessionView {
                    phase: Phase::Spawning,
                    relay_running: true,
                    ..self
                },
                _ => self,
            },
            Phase::Spawning => match event {
                EventView::Completed => SessionView {
                    phase: Phase::AwaitingStart,
                    process_running: true,
                    ..self
                },
                EventView::Failed => self.wind_down(Some(RunError::Process)),
                _ => self,
            },
            Phase::AwaitingStart => match event {
                EventView::Received(MessageView::Start) => SessionView {
                    phase: Phase::Relaying,
                    ..self
                },
                EventView::Received(_) => self.wind_down(Some(RunError::ProtocolViolation)),
                EventView::TimedOut => self.wind_down(Some(RunError::Timeout)),
                _ => self,
            },
            Phase::Relaying => match event {
                EventView::Received(MessageView::Stop) => SessionView {
                    phase: Phase::Closing,
                    ..self
                },
                EventView::Received(MessageView::Messages(events)) => if events.len() > 0 {
                    SessionView { phase: Phase::Delivering, batch: events, cursor: 0, ..self }
                } else {
                    self
                },
                _ => self,
            },
            Phase::Delivering => match event {
                EventView::Completed => if self.cursor + 1 < self.batch.len() {
                    SessionView { cursor: self.cursor + 1, ..self }
                } else {
                    SessionView {
                        phase: Phase::Relaying,
                        batch: Seq::empty(),
                        cursor: 0,
                        ..self
                    }
                },
                EventView::Failed => self.wind_down(Some(RunError::RelayDelivery)),
                _ => self,
            },
            Phase::Closing => match event {
                EventView::Completed => self.wind_down(None),
                EventView::Failed => self.wind_down(Some(RunError::RelayDelivery)),
                _ => self,
            },
            Phase::StoppingRelay => match event {
                EventView::Completed => SessionView {
                    phase: Phase::RemovingArtifact,
                    relay_running: false,
                    ..self
                },
                _ => self,
            },
            Phase::RemovingArtifact => match event {
                EventView::Completed => SessionView {
                    artifact_present: false,
                    ..self
                }.after_removal(),
                EventView::Failed => SessionView {
                    failure: match self.failure {
                        None => Some(RunError::ArtifactRemove),
                        Some(earlier) => Some(earlier),
                    },
                    ..self
                }.after_removal(),
                _ => self,
            },
            Phase::Killing => match event {
                EventView::Completed => SessionView {
                    phase: Phase::Finished,
                    process_running: false,
                    ..self
                },
                _ => self,
            },
            Phase::Finished => self,
        }
    }

    /// What the session asks of the host now.
    pub open spec fn action(self) -> ActionView {
        match self.phase {
            Phase::Locating => ActionView::LocateStudio,
            Phase::WritingArtifact => ActionView::WriteArtifact {
                file_name: plugin_file_name(self.runner.port),
                port: self.runner.port,
                server_id: self.runner.server_id,
                lua_script: self.runner.lua_script,
            },
            Phase::StartingRelay => ActionView::StartRelay {
                port: self.runner.port,
                server_id: self.runner.server_id,
            },
            Phase::Spawning => ActionView::Spawn(self.runner.launch_command(self.program)),
            Phase::AwaitingStart => ActionView::AwaitStart { timeout_secs: HANDSHAKE_TIMEOUT_SECS },
            Phase::Relaying => ActionView::AwaitMessage,
            Phase::Delivering => ActionView::Send(Some(self.batch[self.cursor as int])),
            Phase::Closing => ActionView::Send(None),
            Phase::StoppingRelay => ActionView::StopRelay,
            Phase::RemovingArtifact => ActionView::RemoveArtifact {
                file_name: plugin_file_name(self.runner.port),
            },
            Phase::Killing => ActionView::KillProcess,
            Phase::Finished => ActionView::Return(self.outcome()),
        }
    }

    /// What every session reached from [`SessionView::start`] satisfies:
    /// the phase tells which of the plugin file, the relay and the process
    /// the run holds, whether it has failed, and whether a batch is under
    /// way.
    pub open spec fn inv(self) -> bool {
        &&& self.phase == Phase::Delivering ==> self.cursor < self.batch.len()
        &&& self.phase != Phase::Delivering ==> self.batch.len() == 0 && self.cursor == 0
        &&& match self.phase {
            Phase::Locating | Phase::WritingArtifact => {
                &&& !self.artifact_present
                &&& !self.relay_running
                &&& !self.process_running
                &&& self.failure is None
            },
            Phase::StartingRelay => {
                &&& self.artifact_present
                &&& !self.relay_running
                &&& !self.process_running
                &&& self.failure is None
            },
            Phase::Spawning => {
                &&& self.artifact_present
                &&& self.relay_running
                &&& !self.process_running
                &&& self.failure is None
            },
            Phase::AwaitingStart | Phase::Relaying | Phase::Delivering | Phase::Closing => {
                &&& self.artifact_present
                &&& self.relay_running
                &&& self.process_running
                &&& self.failure is None
            },
            Phase::StoppingRelay => {
                &&& self.artifact_present
                &&& self.relay_running
            },
            Phase::RemovingArtifact => {
                &&& self.artifact_present
                &&& !self.relay_running
            },
            Phase::Killing => {
                &&& self.artifact_present ==> self.failure is Some
                &&& !self.relay_running
                &&& self.process_running
            },
            Phase::Finished => {
                &&& self.artifact_present ==> self.failure is Some
                &&& !self.relay_running
                &&& !self.process_running
            },
        }
    }

    /// The session after the host has reported `events`, oldest first.
    pub open spec fn run(self, events: Seq<EventView>) -> SessionView
        decreases events.len(),
    {
        if events.len() == 0 {
            self
        } else {
            self.advance(events[0]).run(events.drop_first())
        }
    }

    /// What reached the output channel while the host reported `events`:
    /// the item of every `Send` that was answered by `Completed`.
    pub open spec fn sent(self, events: Seq<EventView>) -> Seq<Option<Seq<char>>>
        decreases events.len(),
    {
        if events.len() == 0 {
            Seq::empty()
        } else {
            let rest = self.advance(events[0]).sent(events.drop_first());
            match (self.action(), events[0]) {
                (ActionView::Send(item), EventView::Completed) => seq![item] + rest,
                _ => rest,
            }
        }
    }
}

/// One run in progress.
pub struct Session {
    runner: PlaceRunner,
    phase: Phase,
    program: String,
    batch: Vec<RobloxMessage>,
    cursor: usize,
    failure: Option<RunError>,
    artifact_present: bool,
    relay_running: bool,
    process_running: bool,
}

impl View for Session {
    type V = SessionView;

    closed spec fn view(&self) -> SessionView {
        SessionView {
            runner: self.runner@,
            phase: self.phase,
            program: self.program@,
            batch: self.batch.deep_view(),
            cursor: self.cursor as nat,
            failure: self.failure,
            artifact_present: self.artifact_present,
            relay_running: self.relay_running,
            process_running: self.process_running,
        }
    }
}

impl Session {
    #[verifier::type_invariant]
    spec fn well_formed(self) -> bool {
        self@.inv()
    }

    /// Begins a run. Nothing has happened yet; the first action is to
    /// locate Studio.
    pub fn new(runner: PlaceRunner) -> (session: Session)
        ensures
            session@ == SessionView::start(runner@),
            session@.inv(),
    {
        let batch: Vec<RobloxMessage> = Vec::new();
        assert(batch.deep_view() =~= Seq::<Seq<char>>::empty());
        Session {
            runner,
            phase: Phase::Locating,
            program: String::new(),
            batch,
            cursor: 0,
            failure: None,
            artifact_present: false,
            relay_running: false,
            process_running: false,
        }
    }

    fn give_up(self, error: RunError) -> (next: Session)
        requires
            self.phase == Phase::Locating || self.phase == Phase::WritingArtifact,
        ensures
            next@ == self@.give_up(error),
    {
        proof {
            use_type_invariant(&self);
        }
        Session { phase: Phase::Finished, failure: Some(error), ..self }
    }

    fn wind_down(self, failure: Option<RunError>) -> (next: Session)
        requires
            self@.artifact_present,
            self@.relay_running,
        ensures
            next@ == self@.wind_down(failure),
    {
        let batch: Vec<RobloxMessage> = Vec::new();
        assert(batch.deep_view() =~= Seq::<Seq<char>>::empty());
        Session { phase: Phase::StoppingRelay, failure, batch, cursor: 0, ..self }
    }

    fn after_removal(self, artifact_present: bool, failure: Option<RunError>) -> (next: Session)
        requires
            self.phase == Phase::RemovingArtifact,
            artifact_present ==> failure is Some,
        ensures
            next@ == (SessionView { artifact_present, failure, ..self@ }).after_removal(),
    {
        proof {
            use_type_invariant(&self);
        }
        let phase = if self.process_running {
            Phase::Killing
        } else {
            Phase::Finished
        };
        Session { phase, artifact_present, failure, ..self }
    }

    /// Takes the host's report on the pending action and moves on. A
    /// report that does not answer the pending action is ignored.
    pub fn advance(self, event: Event) -> (next: Session)
        ensures
            next@ == self@.advance(event@),
            next@.inv(),
    {
        proof {
            use_type_invariant(&self);
        }
        let next = match self.phase {
            Phase::Locating => match event {
                Event::Located(app_path) => {
                    let program = self.runner.get_studio_execution_cmd(app_path.as_str());
                    Session { phase: Phase::WritingArtifact, program, ..self }
                },
                Event::Failed => self.give_up(RunError::Environment),
                _ => self,
            },
            Phase::WritingArtifact => match event {
                Event::Completed => Session {
                    phase: Phase::StartingRelay,
                    artifact_present: true,
                    ..self
                },
                Event::Failed => self.give_up(RunError::ArtifactWrite),
                _ => self,
            },
            Phase::StartingRelay => match event {
                Event::Completed => Session { phase: Phase::Spawning, relay_running: true, ..self },
                _ => self,
            },
            Phase::Spawning => match event {
                Event::Completed => Session {
                    phase: Phase::AwaitingStart,
                    process_running: true,
                    ..self
                },
                Event::Failed => self.wind_down(Some(RunError::Process)),
                _ => self,
            },
            Phase::AwaitingStart => match event {
                Event::Received(Message::Start) => Session { phase: Phase::Relaying, ..self },
                Event::Received(_) => self.wind_down(Some(RunError::ProtocolViolation)),
                Event::TimedOut => self.wind_down(Some(RunError::Timeout)),
                _ => self,
            },
            Phase::Relaying => match event {
                Event::Received(Message::Stop) => Session { phase: Phase::Closing, ..self },
                Event::Received(Message::Messages(events)) => if events.len() > 0 {
                    Session { phase: Phase::Delivering, batch: events, cursor: 0, ..self }
                } else {
                    self
                },
                _ => self,
            },
            Phase::Delivering => match event {
                Event::Completed => {
                    assert(self@.cursor < self@.batch.len());
                    assert(self.cursor < self.batch.len());
                    if self.cursor + 1 < self.batch.len() {
                        Session { cursor: self.cursor + 1, ..self }
                    } else {
                        let batch: Vec<RobloxMessage> = Vec::new();
                        assert(batch.deep_view() =~= Seq::<Seq<char>>::empty());
                        Session { phase: Phase::Relaying, batch, cursor: 0, ..self }
                    }
                },
                Event::Failed => self.wind_down(Some(RunError::RelayDelivery)),
                _ => self,
            },
            Phase::Closing => match event {
                Event::Completed => self.wind_down(None),
                Event::Failed => self.wind_down(Some(RunError::RelayDelivery)),
                _ => self,
            },
            Phase::StoppingRelay => match event {
                Event::Completed => Session {
                    phase: Phase::RemovingArtifact,
                    relay_running: false,
                    ..self
                },
                _ => self,
            },
            Phase::RemovingArtifact => match event {
                Event::Completed => {
                    let failure = self.failure;
                    self.after_removal(false, failure)
                },
                Event::Failed => {
                    let failure = match self.failure {
                        None => Some(RunError::ArtifactRemove),
                        Some(earlier) => Some(earlier),
                    };
                    self.after_removal(true, failure)
                },
                _ => self,
            },
            Phase::Killing => match event {
                Event::Completed => Session {
                    phase: Phase::Finished,
                    process_running: false,
                    ..self
                },
                _ => self,
            },
            Phase::Finished => self,
        };
        proof {
            use_type_invariant(&next);
        }
        next
    }

    /// Where the run stands.
    pub fn phase(&self) -> (phase: Phase)
        ensures
            phase == self@.phase,
    {
        self.phase
    }

    /// Whether the run is over.
    pub fn is_finished(&self) -> (finished: bool)
        ensures
            finished == (self@.phase == Phase::Finished),
    {
        match self.phase {
            Phase::Finished => true,
            _ => false,
        }
    }

    /// The result of the run, once it is over.
    pub fn outcome(&self) -> (outcome: Option<Result<(), RunError>>)
        ensures
            outcome == if self@.phase == Phase::Finished {
                Some(self@.outcome())
            } else {
                None
            },
    {
        match self.phase {
            Phase::Finished => match self.failure {
                None => Some(Ok(())),
                Some(error) => Some(Err(error)),
            },
            _ => None,
        }
    }

    /// The first fatal error of the run, once there is one. It is what the
    /// run will return.
    pub fn failure(&self) -> (failure: Option<RunError>)
        ensures
            failure == self@.failure,
    {
        self.failure
    }

    /// Whether the plugin file is on disk, as far as the host has reported.
    /// True after the run only where removing the file failed.
    pub fn artifact_present(&self) -> (present: bool)
        ensures
            present == self@.artifact_present,
    {
        self.artifact_present
    }

    /// Whether the relay is listening, as far as the host has reported.
    pub fn relay_running(&self) -> (running: bool)
        ensures
            running == self@.relay_running,
    {
        self.relay_running
    }

    /// Whether the Studio process is alive, as far as the host has
    /// reported.
    pub fn process_running(&self) -> (running: bool)
        ensures
            running == self@.process_running,
    {
        self.process_running
    }

    /// The action the host is to perform now.
    pub fn action(&self) -> (action: Action)
        ensures
            action@ == self@.action(),
    {
        proof {
            use_type_invariant(self);
        }
        match self.phase {
            Phase::Locating => Action::LocateStudio,
            Phase::WritingArtifact => Action::WriteArtifact {
                file_name: self.runner.plugin_file_name(),
                port: self.runner.port,
                server_id: self.runner.server_id.clone(),
                lua_script: self.runner.lua_script.clone(),
            },
            Phase::StartingRelay => Action::StartRelay {
                port: self.runner.port,
                server_id: self.runner.server_id.clone(),
            },
            Phase::Spawning => Action::Spawn(self.runner.launch_command(self.program.clone())),
            Phase::AwaitingStart => Action::AwaitStart { timeout_secs: HANDSHAKE_TIMEOUT_SECS },
            Phase::Relaying => Action::AwaitMessage,
            Phase::Delivering => Action::Send(Some(self.batch[self.cursor].clone())),
            Phase::Closing => Action::Send(None),
            Phase::StoppingRelay => Action::StopRelay,
            Phase::RemovingArtifact => Action::RemoveArtifact {
                file_name: self.runner.plugin_file_name(),
            },
            Phase::Killing => Action::KillProcess,
            Phase::Finished => Action::Return(
                match self.failure {
                    None => Ok(()),
                    Some(error) => Err(error),
                },
            ),
        }
    }
}

} // verus!
