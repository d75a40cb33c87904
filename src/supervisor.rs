//! The supervisor's decisions. The supervisor serialises commands from the
//! user and the outcomes of the work it asks for; each input moves it to a
//! new state and yields the actions to perform, in order. Opening sessions,
//! arming the trace and running the poll task are done by the caller, which
//! hands each outcome back as the next input.
use vstd::prelude::*;
use crate::model::{ActiveTrace, ConnectionConfig, ProfilerStatus};

verus! {

/// A command from the user; its reply is an action.
#[derive(Debug, Clone, PartialEq, Eq)]
pub enum ProfilerCommand {
    Connect { config: ConnectionConfig },
    Disconnect,
    StartCapture,
    StopCapture,
}

/// What the supervisor reacts to.
#[derive(Debug, PartialEq, Eq)]
pub enum Input {
    Command(ProfilerCommand),
    /// Outcome of `Action::OpenControl`.
    ControlOpened(Result<(), String>),
    /// Outcome of `Action::Arm`.
    TraceArmed(Result<ActiveTrace, String>),
    /// Outcome of `Action::OpenPollSession`.
    PollSessionOpened(Result<(), String>),
    /// The command channel closed: the supervisor shuts down.
    Closed,
}

/// Work the supervisor asks for.
#[derive(Debug, PartialEq, Eq)]
pub enum Action {
    /// Clear the poll task's run flag, then abort the task.
    StopPolling,
    /// Stop and close the trace with this id on the control session; any
    /// error is swallowed.
    Disarm(i32),
    /// Drop the control session.
    CloseControl,
    /// Open a new control session; its outcome comes back as `ControlOpened`.
    OpenControl(ConnectionConfig),
    /// Arm the trace on the control session; outcome `TraceArmed`.
    Arm,
    /// Open the second session that polls; outcome `PollSessionOpened`.
    OpenPollSession(ConnectionConfig),
    /// Start the poll task on the poll session, reading this trace file,
    /// with a fresh run flag.
    SpawnPoller(String),
    /// Publish a status to the host.
    Emit(ProfilerStatus),
    /// Answer the command being handled.
    Reply(Result<(), String>),
}

/// The outcome the supervisor waits for, if any.
#[derive(Debug, Clone, PartialEq, Eq)]
pub enum Awaiting {
    Nothing,
    Connecting(ConnectionConfig),
    Arming,
    OpeningPoll,
}

/// The supervisor's state. `config` is set exactly while a control session
/// is open; `polling` while a poll task runs with its run flag set.
#[derive(Debug, Clone, PartialEq, Eq)]
pub struct Supervisor {
    pub config: Option<ConnectionConfig>,
    pub active_trace: Option<ActiveTrace>,
    pub polling: bool,
    pub awaiting: Awaiting,
}

pub open spec fn status_of(connected: bool, capturing: bool, error: Option<String>) -> ProfilerStatus {
    ProfilerStatus { connected, capturing, error }
}

/// The disarm owed when a trace is armed on an open control session.
pub open spec fn disarm_actions(s: Supervisor) -> Seq<Action> {
    match (s.config, s.active_trace) {
        (Some(_), Some(t)) => seq![Action::Disarm(t.trace_id)],
        _ => Seq::empty(),
    }
}

/// Stopping the poll task and releasing the trace.
pub open spec fn teardown_actions(s: Supervisor) -> Seq<Action> {
    seq![Action::StopPolling] + disarm_actions(s)
}

/// The state once polling is stopped and the trace released.
pub open spec fn torn_down(s: Supervisor) -> Supervisor {
    Supervisor { active_trace: None, polling: false, awaiting: Awaiting::Nothing, ..s }
}

/// `s2` and `acts` are the state and the actions after `input` in state `s`.
pub open spec fn step_holds(s: Supervisor, input: Input, s2: Supervisor, acts: Seq<Action>) -> bool {
    match input {
        Input::Command(ProfilerCommand::Connect { config }) => {
            &&& s2 == Supervisor { awaiting: Awaiting::Connecting(config), ..torn_down(s) }
            &&& acts == teardown_actions(s).push(Action::OpenControl(config))
        },
        Input::Command(ProfilerCommand::Disconnect) => {
            &&& s2 == Supervisor { config: None, ..torn_down(s) }
            &&& acts == teardown_actions(s) + seq![
                Action::CloseControl,
                Action::Emit(status_of(false, false, None)),
                Action::Reply(Ok(())),
            ]
        },
        Input::Command(ProfilerCommand::StartCapture) => {
            if s.config is None {
                &&& s2 == Supervisor { awaiting: Awaiting::Nothing, ..s }
                &&& acts.len() == 1
                &&& acts[0] is Reply
                &&& acts[0]->Reply_0 is Err
                &&& acts[0]->Reply_0->Err_0@ == "Not connected"@
            } else {
                &&& s2 == Supervisor { awaiting: Awaiting::Arming, ..torn_down(s) }
                &&& acts == teardown_actions(s).push(Action::Arm)
            }
        },
        Input::Command(ProfilerCommand::StopCapture) => {
            &&& s2 == torn_down(s)
            &&& acts == seq![
                Action::StopPolling,
                Action::Emit(status_of(s.config is Some, false, None)),
                Action::Reply(Ok(())),
            ] + disarm_actions(s)
        },
        Input::Closed => {
            &&& s2 == Supervisor { config: None, ..torn_down(s) }
            &&& acts == teardown_actions(s).push(Action::CloseControl)
        },
        Input::ControlOpened(result) => match s.awaiting {
            Awaiting::Connecting(config) => match result {
                Ok(_) => {
                    &&& s2 == Supervisor { config: Some(config), awaiting: Awaiting::Nothing, ..s }
                    &&& acts == seq![Action::Emit(status_of(true, false, None)), Action::Reply(Ok(()))]
                },
                Err(e) => {
                    &&& s2 == Supervisor { config: None, awaiting: Awaiting::Nothing, ..s }
                    &&& acts == seq![
                        Action::CloseControl,
                        Action::Emit(status_of(false, false, Some(e))),
                        Action::Reply(Err(e)),
                    ]
                },
            },
            _ => s2 == s && acts == Seq::<Action>::empty(),
        },
        Input::TraceArmed(result) => match (s.awaiting, s.config) {
            (Awaiting::Arming, Some(config)) => match result {
                Ok(t) => {
                    &&& s2 == Supervisor { active_trace: Some(t), awaiting: Awaiting::OpeningPoll, ..s }
                    &&& acts == seq![Action::OpenPollSession(config)]
                },
                Err(e) => {
                    &&& s2 == Supervisor { awaiting: Awaiting::Nothing, ..s }
                    &&& acts == seq![Action::Reply(Err(e))]
                },
            },
            _ => s2 == s && acts == Seq::<Action>::empty(),
        },
        Input::PollSessionOpened(result) => match (s.awaiting, s.active_trace) {
            (Awaiting::OpeningPoll, Some(t)) => match result {
                Ok(_) => {
                    &&& s2 == Supervisor { polling: true, awaiting: Awaiting::Nothing, ..s }
                    &&& acts == seq![
                        Action::SpawnPoller(t.trace_file),
                        Action::Emit(status_of(true, true, None)),
                        Action::Reply(Ok(())),
                    ]
                },
                Err(e) => {
                    &&& s2 == Supervisor { active_trace: None, awaiting: Awaiting::Nothing, ..s }
                    &&& acts.len() == 3
                    &&& acts[0] == Action::Disarm(t.trace_id)
                    &&& acts[1] is Emit
                    &&& acts[2] is Reply
                    &&& acts[2]->Reply_0 is Err
                    &&& acts[1]->Emit_0 == status_of(true, false, Some(acts[2]->Reply_0->Err_0))
                    &&& acts[2]->Reply_0->Err_0@ == "Failed to start polling stream: "@ + e@
                },
            },
            _ => s2 == s && acts == Seq::<Action>::empty(),
        },
    }
}

impl Supervisor {
    /// A supervisor with no session, no trace and no poll task.
    pub fn new() -> (r: Supervisor)
        ensures
            r.config is None,
            r.active_trace is None,
            !r.polling,
            r.awaiting is Nothing,
    {
        Supervisor { config: None, active_trace: None, polling: false, awaiting: Awaiting::Nothing }
    }

    /// The status that the host would be shown now, without an error.
    pub fn status(&self) -> (r: ProfilerStatus)
        ensures
            r == status_of(self.config is Some, self.polling, None),
    {
        ProfilerStatus { connected: self.config.is_some(), capturing: self.polling, error: None }
    }

    fn tear_down(&mut self, acts: &mut Vec<Action>)
        ensures
            *final(self) == torn_down(*old(self)),
            final(acts)@ == old(acts)@ + teardown_actions(*old(self)),
    {
        let ghost s = *self;
        let ghost a = acts@;
        acts.push(Action::StopPolling);
        if self.config.is_some() {
            match &self.active_trace {
                Some(t) => acts.push(Action::Disarm(t.trace_id)),
                None => {},
            }
        }
        self.active_trace = None;
        self.polling = false;
        self.awaiting = Awaiting::Nothing;
        assert(acts@ =~= a + teardown_actions(s));
    }

    /// Reacts to one input: moves to the next state and returns the actions
    /// to perform, in order.
    pub fn step(&mut self, input: Input) -> (r: Vec<Action>)
        ensures
            step_holds(*old(self), input, *final(self), r@),
    {
        let ghost s = *self;
        let mut acts: Vec<Action> = Vec::new();
        match input {
            Input::Command(ProfilerCommand::Connect { config }) => {
                self.tear_down(&mut acts);
                acts.push(Action::OpenControl(config.copy_of()));
                self.awaiting = Awaiting::Connecting(config);
                assert(acts@ =~= teardown_actions(s).push(Action::OpenControl(config)));
            },
            Input::Command(ProfilerCommand::Disconnect) => {
                self.tear_down(&mut acts);
                self.config = None;
                acts.push(Action::CloseControl);
                acts.push(
                    Action::Emit(ProfilerStatus { connected: false, capturing: false, error: None }),
                );
                acts.push(Action::Reply(Ok(())));
                assert(acts@ =~= teardown_actions(s) + seq![
                    Action::CloseControl,
                    Action::Emit(status_of(false, false, None)),
                    Action::Reply(Ok(())),
                ]);
            },
            Input::Command(ProfilerCommand::StartCapture) => {
                if self.config.is_none() {
                    self.awaiting = Awaiting::Nothing;
                    acts.push(Action::Reply(Err(String::from_str("Not connected"))));
                } else {
                    self.tear_down(&mut acts);
                    acts.push(Action::Arm);
                    self.awaiting = Awaiting::Arming;
                    assert(acts@ =~= teardown_actions(s).push(Action::Arm));
                }
            },
            Input::Command(ProfilerCommand::StopCapture) => {
                acts.push(Action::StopPolling);
                acts.push(
                    Action::Emit(
                        ProfilerStatus {
                            connected: self.config.is_some(),
                            capturing: false,
                            error: None,
                        },
                    ),
                );
                acts.push(Action::Reply(Ok(())));
                if self.config.is_some() {
                    match &self.active_trace {
                        Some(t) => acts.push(Action::Disarm(t.trace_id)),
                        None => {},
                    }
                }
                self.active_trace = None;
                self.polling = false;
                self.awaiting = Awaiting::Nothing;
                assert(acts@ =~= seq![
                    Action::StopPolling,
                    Action::Emit(status_of(s.config is Some, false, None)),
                    Action::Reply(Ok(())),
                ] + disarm_actions(s));
            },
            Input::Closed => {
                self.tear_down(&mut acts);
                self.config = None;
                acts.push(Action::CloseControl);
                assert(acts@ =~= teardown_actions(s).push(Action::CloseControl));
            },
            Input::ControlOpened(result) => {
                let connecting = match &self.awaiting {
                    Awaiting::Connecting(config) => Some(config.copy_of()),
                    _ => None,
                };
                match connecting {
                    Some(config) => {
                        self.awaiting = Awaiting::Nothing;
                        match result {
                            Ok(_) => {
                                self.config = Some(config);
                                acts.push(
                                    Action::Emit(
                                        ProfilerStatus { connected: true, capturing: false, error: None },
                                    ),
                                );
                                acts.push(Action::Reply(Ok(())));
                                assert(acts@ =~= seq![Action::Emit(status_of(true, false, None)), Action::Reply(Ok(()))]);
                            },
                            Err(e) => {
                                self.config = None;
                                acts.push(Action::CloseControl);
                                acts.push(
                                    Action::Emit(
                                        ProfilerStatus {
                                            connected: false,
                                            capturing: false,
                                            error: Some(e.clone()),
                                        },
                                    ),
                                );
                                acts.push(Action::Reply(Err(e)));
                                assert(acts@ =~= seq![
                                    Action::CloseControl,
                                    Action::Emit(status_of(false, false, Some(e))),
                                    Action::Reply(Err(e)),
                                ]);
                            },
                        }
                    },
                    None => {},
                }
            },
            Input::TraceArmed(result) => {
                let is_arming = match self.awaiting {
                    Awaiting::Arming => true,
                    _ => false,
                };
                if is_arming {
                    match &self.config {
                        Some(config) => {
                            match result {
                                Ok(t) => {
                                    acts.push(Action::OpenPollSession(config.copy_of()));
                                    self.active_trace = Some(t);
                                    self.awaiting = Awaiting::OpeningPoll;
                                    assert(acts@ =~= seq![Action::OpenPollSession(*config)]);
                                },
                                Err(e) => {
                                    acts.push(Action::Reply(Err(e)));
                                    self.awaiting = Awaiting::Nothing;
                                    assert(acts@ =~= seq![Action::Reply(Err(e))]);
                                },
                            }
                        },
                        None => {},
                    }
                }
            },
            Input::PollSessionOpened(result) => {
                let is_opening = match self.awaiting {
                    Awaiting::OpeningPoll => true,
                    _ => false,
                };
                if is_opening {
                    match &self.active_trace {
                        Some(t) => {
                            match result {
                                Ok(_) => {
                                    acts.push(Action::SpawnPoller(t.trace_file.clone()));
                                    acts.push(
                                        Action::Emit(
                                            ProfilerStatus {
                                                connected: true,
                                                capturing: true,
                                                error: None,
                                            },
                                        ),
                                    );
                                    acts.push(Action::Reply(Ok(())));
                                    self.polling = true;
                                    self.awaiting = Awaiting::Nothing;
                                    assert(acts@ =~= seq![
                                        Action::SpawnPoller(t.trace_file),
                                        Action::Emit(status_of(true, true, None)),
                                        Action::Reply(Ok(())),
                                    ]);
                                },
                                Err(e) => {
                                    let message = String::from_str(
                                        "Failed to start polling stream: ",
                                    ).concat(e.as_str());
                                    acts.push(Action::Disarm(t.trace_id));
                                    acts.push(
                                        Action::Emit(
                                            ProfilerStatus {
                                                connected: true,
                                                capturing: false,
                                                error: Some(message.clone()),
                                            },
                                        ),
                                    );
                                    acts.push(Action::Reply(Err(message)));
                                    self.active_trace = None;
                                    self.awaiting = Awaiting::Nothing;
                                },
                            }
                        },
                        None => {},
                    }
                }
            },
        }
        proof {
            assert(step_holds(s, input, *self, acts@));
        }
        acts
    }
}

/// The supervisor's internal invariant: a trace exists only on an open
/// control session, a poll task only for an armed trace, and each awaited
/// outcome matches the state it was asked for in.
pub open spec fn well_formed(s: Supervisor) -> bool {
    &&& s.active_trace is Some ==> s.config is Some
    &&& s.polling ==> s.config is Some && s.active_trace is Some
    &&& s.awaiting is Connecting ==> s.active_trace is None && !s.polling
    &&& s.awaiting is Arming ==> s.config is Some && s.active_trace is None && !s.polling
    &&& s.awaiting is OpeningPoll ==> s.config is Some && s.active_trace is Some && !s.polling
}

/// A new supervisor is well formed, and every step keeps it so.
pub proof fn law_step_keeps_well_formed(s: Supervisor, input: Input, s2: Supervisor, acts: Seq<Action>)
    requires
        well_formed(s),
        step_holds(s, input, s2, acts),
    ensures
        well_formed(s2),
{
}

/// Whether an input ends the capture's use of the server: a disconnect, a
/// new connect, a stop, shutdown, or a poll session that failed to open.
pub open spec fn is_teardown(input: Input) -> bool {
    match input {
        Input::Command(ProfilerCommand::Connect { .. }) => true,
        Input::Command(ProfilerCommand::Disconnect) => true,
        Input::Command(ProfilerCommand::StopCapture) => true,
        Input::Closed => true,
        Input::PollSessionOpened(Err(_)) => true,
        _ => false,
    }
}

/// On every teardown path the server-side trace is released: afterwards no
/// trace is held, and one that was held gets its disarm issued.
pub proof fn law_teardown_releases_trace(s: Supervisor, input: Input, s2: Supervisor, acts: Seq<Action>)
    requires
        well_formed(s),
        step_holds(s, input, s2, acts),
        is_teardown(input),
        input is PollSessionOpened ==> s.awaiting is OpeningPoll,
    ensures
        s2.active_trace is None,
        s.active_trace is Some ==> acts.contains(Action::Disarm(s.active_trace->0.trace_id)),
{
    if s.active_trace is Some {
        let d = Action::Disarm(s.active_trace->0.trace_id);
        match input {
            Input::Command(ProfilerCommand::StopCapture) => {
                assert(acts[3] == d);
            },
            Input::PollSessionOpened(_) => {
                assert(acts[0] == d);
            },
            _ => {
                assert(acts[1] == d);
            },
        }
    }
}

/// No poll task runs and none is on its way.
pub open spec fn quiescent(s: Supervisor) -> bool {
    !s.polling && (s.awaiting is Nothing || s.awaiting is Connecting)
}

/// StopCapture stops the poll task before it replies, and leaves the
/// supervisor with no poll task running or on its way.
pub proof fn law_stop_capture_stops_polling(s: Supervisor, s2: Supervisor, acts: Seq<Action>)
    requires
        step_holds(s, Input::Command(ProfilerCommand::StopCapture), s2, acts),
    ensures
        quiescent(s2),
        acts[0] == Action::StopPolling,
        acts[2] == Action::Reply(Ok(())),
        forall|i: int| 0 <= i < acts.len() ==> !(#[trigger] acts[i] is SpawnPoller),
{
    assert forall|i: int| 0 <= i < acts.len() implies !(#[trigger] acts[i] is SpawnPoller) by {
        if i >= 3 {
            assert(acts[i] == disarm_actions(s)[i - 3]);
        }
    }
}

/// Once quiescent, the supervisor starts no poll task until the next
/// StartCapture: every other input keeps it quiescent and spawns nothing.
pub proof fn law_no_polling_without_start(s: Supervisor, input: Input, s2: Supervisor, acts: Seq<Action>)
    requires
        quiescent(s),
        step_holds(s, input, s2, acts),
        !(input matches Input::Command(ProfilerCommand::StartCapture)),
    ensures
        quiescent(s2),
        forall|i: int| 0 <= i < acts.len() ==> !(#[trigger] acts[i] is SpawnPoller),
{
    assert forall|i: int| 0 <= i < acts.len() implies !(#[trigger] acts[i] is SpawnPoller) by {
        match input {
            Input::Command(ProfilerCommand::StopCapture) => {
                if i >= 3 {
                    assert(acts[i] == disarm_actions(s)[i - 3]);
                }
            },
            Input::Command(ProfilerCommand::Connect { .. }) => {
                if 1 <= i < acts.len() - 1 {
                    assert(acts[i] == disarm_actions(s)[i - 1]);
                }
            },
            Input::Closed => {
                if 1 <= i < acts.len() - 1 {
                    assert(acts[i] == disarm_actions(s)[i - 1]);
                }
            },
            Input::Command(ProfilerCommand::Disconnect) => {
                if 1 <= i < acts.len() - 3 {
                    assert(acts[i] == disarm_actions(s)[i - 1]);
                }
            },
            _ => {},
        }
    }
}

} // verus!
