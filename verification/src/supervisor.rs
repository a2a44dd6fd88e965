//! The supervisor of the backend process, as a state machine.
//!
//! The supervisor itself starts nothing and waits for nothing. Each
//! transition returns a [`Step`]: the effects to perform, in order, and the
//! one request whose outcome is the next [`Event`]. The caller performs
//! them and hands the event back, for as long as the application runs.

use crate::decimal::{decimal, decimal_string};
use crate::messages::{
    backend_program, backend_program_text, child_error_log, child_error_log_text,
    child_output_log, child_output_log_text, exited_line, exited_text, port_flag, port_flag_text,
    retrying_line, retrying_text, spawn_failed_line, spawn_failed_text, spawning_line,
    spawning_text, started_line, started_text, BACKOFF_SECONDS,
};
use vstd::prelude::*;

verus! {

/// The two states of the supervisor.
#[derive(Clone, Copy, Debug, PartialEq, Eq, Structural)]
pub enum Phase {
    /// No process is held; a start has been requested and its outcome is
    /// awaited.
    BackingOff,
    /// A process is held and its output is being read.
    Running,
}

/// The two named channels on which lines reach the user interface.
#[derive(Clone, Copy, Debug, PartialEq, Eq, Structural)]
pub enum Channel {
    Stdout,
    Stderr,
}

/// The two streams of the shell's own diagnostic log.
#[derive(Clone, Copy, Debug, PartialEq, Eq, Structural)]
pub enum LogStream {
    Standard,
    Error,
}

/// What happened since the last step.
#[derive(Clone, Debug, PartialEq, Eq)]
pub enum Event {
    /// The requested start succeeded.
    SpawnSucceeded,
    /// The requested start failed, for the reason given.
    SpawnFailed { error: String },
    /// The process wrote a line to its standard output.
    StdoutLine { line: String },
    /// The process wrote a line to its standard error.
    StderrLine { line: String },
    /// The process reported something that is neither a line nor the end
    /// of its output.
    Other,
    /// The output of the process ended: it has exited, with whatever code.
    StreamClosed,
}

/// Something for the caller to do without reporting back.
#[derive(Clone, Debug, PartialEq, Eq)]
pub enum Effect {
    /// Write a line to the diagnostic log.
    Log { stream: LogStream, text: String },
    /// Publish a line to the user interface; a failure to do so is ignored.
    Publish { channel: Channel, payload: String },
    /// Wait for the given number of seconds.
    Pause { seconds: u64 },
}

/// What the caller does last in a step; its outcome is the next event.
#[derive(Clone, Debug, PartialEq, Eq)]
pub enum Request {
    /// Start the program with these arguments. Answered by
    /// `SpawnSucceeded` or `SpawnFailed`.
    Spawn { program: String, args: Vec<String> },
    /// Wait for the next thing the process reports. Answered by
    /// `StdoutLine`, `StderrLine`, `Other` or `StreamClosed`.
    ReadLine,
}

/// The caller's part of one transition.
#[derive(Clone, Debug, PartialEq, Eq)]
pub struct Step {
    pub effects: Vec<Effect>,
    pub request: Request,
}

pub ghost enum EventView {
    SpawnSucceeded,
    SpawnFailed { error: Seq<char> },
    StdoutLine { line: Seq<char> },
    StderrLine { line: Seq<char> },
    Other,
    StreamClosed,
}

pub ghost enum EffectView {
    Log { stream: LogStream, text: Seq<char> },
    Publish { channel: Channel, payload: Seq<char> },
    Pause { seconds: u64 },
}

pub ghost enum RequestView {
    Spawn { program: Seq<char>, args: Seq<Seq<char>> },
    ReadLine,
}

pub ghost struct StepView {
    pub effects: Seq<EffectView>,
    pub request: RequestView,
}

impl View for Event {
    type V = EventView;

    open spec fn view(&self) -> EventView {
        match *self {
            Event::SpawnSucceeded => EventView::SpawnSucceeded,
            Event::SpawnFailed { error } => EventView::SpawnFailed { error: error@ },
            Event::StdoutLine { line } => EventView::StdoutLine { line: line@ },
            Event::StderrLine { line } => EventView::StderrLine { line: line@ },
            Event::Other => EventView::Other,
            Event::StreamClosed => EventView::StreamClosed,
        }
    }
}

impl View for Effect {
    type V = EffectView;

    open spec fn view(&self) -> EffectView {
        match *self {
            Effect::Log { stream, text } => EffectView::Log { stream, text: text@ },
            Effect::Publish { channel, payload } => EffectView::Publish {
                channel,
                payload: payload@,
            },
            Effect::Pause { seconds } => EffectView::Pause { seconds },
        }
    }
}

impl View for Request {
    type V = RequestView;

    open spec fn view(&self) -> RequestView {
        match *self {
            Request::Spawn { program, args } => RequestView::Spawn {
                program: program@,
                args: texts_view(args@),
            },
            Request::ReadLine => RequestView::ReadLine,
        }
    }
}

/// The texts of a list of strings.
pub open spec fn texts_view(texts: Seq<String>) -> Seq<Seq<char>> {
    Seq::new(texts.len(), |i: int| texts[i]@)
}

/// The effects of a list, each by its view.
pub open spec fn effects_view(effects: Seq<Effect>) -> Seq<EffectView> {
    Seq::new(effects.len(), |i: int| effects[i]@)
}

impl View for Step {
    type V = StepView;

    open spec fn view(&self) -> StepView {
        StepView { effects: effects_view(self.effects@), request: self.request@ }
    }
}

impl Channel {
    /// The name under which lines of this channel are published.
    pub open spec fn spec_name(self) -> Seq<char> {
        match self {
            Channel::Stdout => "backend-stdout"@,
            Channel::Stderr => "backend-stderr"@,
        }
    }

    pub fn name(&self) -> (name: &'static str)
        ensures
            name@ == self.spec_name(),
    {
        match self {
            Channel::Stdout => "backend-stdout",
            Channel::Stderr => "backend-stderr",
        }
    }
}

/// The command line of the backend: the flag, then the port in decimal.
pub open spec fn launch_arguments(port: u16) -> Seq<Seq<char>> {
    seq![port_flag(), decimal(port as nat)]
}

/// The request that starts the backend on `port`.
pub open spec fn spawn_request(port: u16) -> RequestView {
    RequestView::Spawn { program: backend_program(), args: launch_arguments(port) }
}

/// What precedes every start: the announcement, logged and published.
pub open spec fn announce_effects(port: u16) -> Seq<EffectView> {
    seq![
        EffectView::Log { stream: LogStream::Standard, text: spawning_line(port) },
        EffectView::Publish { channel: Channel::Stdout, payload: spawning_line(port) },
    ]
}

/// A start of the backend: the announcement, then the request.
pub open spec fn attempt(port: u16) -> StepView {
    StepView { effects: announce_effects(port), request: spawn_request(port) }
}

/// The wait between the end of one attempt and the next.
pub open spec fn backoff_effects() -> Seq<EffectView> {
    seq![EffectView::Pause { seconds: BACKOFF_SECONDS }]
}

/// What follows a start that succeeded.
pub open spec fn started_step() -> StepView {
    StepView {
        effects: seq![
            EffectView::Log { stream: LogStream::Standard, text: started_line() },
            EffectView::Publish { channel: Channel::Stdout, payload: started_line() },
        ],
        request: RequestView::ReadLine,
    }
}

/// What follows a start that failed: the failure with its reason, the
/// wait, and the next attempt.
pub open spec fn spawn_failed_step(port: u16, error: Seq<char>) -> StepView {
    StepView {
        effects: seq![
            EffectView::Log { stream: LogStream::Error, text: spawn_failed_line(error) },
            EffectView::Publish { channel: Channel::Stderr, payload: spawn_failed_line(error) },
            EffectView::Log { stream: LogStream::Standard, text: retrying_line() },
        ] + backoff_effects() + announce_effects(port),
        request: spawn_request(port),
    }
}

/// What follows a line on the backend's standard output.
pub open spec fn stdout_step(line: Seq<char>) -> StepView {
    StepView {
        effects: seq![
            EffectView::Log { stream: LogStream::Standard, text: child_output_log(line) },
            EffectView::Publish { channel: Channel::Stdout, payload: line },
        ],
        request: RequestView::ReadLine,
    }
}

/// What follows a line on the backend's standard error.
pub open spec fn stderr_step(line: Seq<char>) -> StepView {
    StepView {
        effects: seq![
            EffectView::Log { stream: LogStream::Error, text: child_error_log(line) },
            EffectView::Publish { channel: Channel::Stderr, payload: line },
        ],
        request: RequestView::ReadLine,
    }
}

/// What follows a report that is no line: nothing but the next read.
pub open spec fn ignored_step() -> StepView {
    StepView { effects: Seq::empty(), request: RequestView::ReadLine }
}

/// What follows the end of the backend's output: the notice, the wait,
/// and the next attempt.
pub open spec fn exited_step(port: u16) -> StepView {
    StepView {
        effects: seq![
            EffectView::Log { stream: LogStream::Standard, text: exited_line() },
            EffectView::Publish { channel: Channel::Stderr, payload: exited_line() },
        ] + backoff_effects() + announce_effects(port),
        request: spawn_request(port),
    }
}

/// Whether `event` can answer the request that is pending in `phase`.
pub open spec fn accepts(phase: Phase, event: EventView) -> bool {
    match phase {
        Phase::BackingOff => event is SpawnSucceeded || event is SpawnFailed,
        Phase::Running => event is StdoutLine || event is StderrLine || event is Other
            || event is StreamClosed,
    }
}

/// The phase after `event`; unchanged where the event is not accepted.
pub open spec fn next_phase(phase: Phase, event: EventView) -> Phase {
    match (phase, event) {
        (Phase::BackingOff, EventView::SpawnSucceeded) => Phase::Running,
        (Phase::Running, EventView::StreamClosed) => Phase::BackingOff,
        _ => phase,
    }
}

/// The step that `event` calls for in `phase`, for an accepted event.
pub open spec fn next_step(phase: Phase, port: u16, event: EventView) -> StepView
    recommends
        accepts(phase, event),
{
    match event {
        EventView::SpawnSucceeded => started_step(),
        EventView::SpawnFailed { error } => spawn_failed_step(port, error),
        EventView::StdoutLine { line } => stdout_step(line),
        EventView::StderrLine { line } => stderr_step(line),
        EventView::Other => ignored_step(),
        EventView::StreamClosed => exited_step(port),
    }
}

/// The state after `event`: the port never changes.
pub open spec fn next_state(state: SupervisorView, event: EventView) -> SupervisorView {
    SupervisorView { port: state.port, phase: next_phase(state.phase, event) }
}

/// The supervisor: the port it was given, and its phase.
#[derive(Clone, Copy, Debug, PartialEq, Eq)]
pub struct Supervisor {
    port: u16,
    phase: Phase,
}

pub ghost struct SupervisorView {
    pub port: u16,
    pub phase: Phase,
}

impl View for Supervisor {
    type V = SupervisorView;

    closed spec fn view(&self) -> SupervisorView {
        SupervisorView { port: self.port, phase: self.phase }
    }
}

impl Supervisor {

    /// A supervisor for a backend on `port`, and its first step: the first
    /// attempt to start the backend, with no wait before it.
    pub fn start(port: u16) -> (started: (Supervisor, Step))
        ensures
            started.0@ == (SupervisorView { port, phase: Phase::BackingOff }),
            started.1@ == attempt(port),
    {
        let mut effects: Vec<Effect> = Vec::new();
        push_announcement(&mut effects, port);
        let step = Step { effects, request: spawn_request_for(port) };
        assert(step@.effects =~= announce_effects(port));
        (Supervisor { port, phase: Phase::BackingOff }, step)
    }

    /// The port that every start of the backend is given.
    pub fn assigned_port(&self) -> (port: u16)
        ensures
            port == self@.port,
    {
        self.port
    }

    pub fn current_phase(&self) -> (phase: Phase)
        ensures
            phase == self@.phase,
    {
        self.phase
    }

    /// Takes what happened and says what to do next.
    ///
    /// An event that answers the pending request is always accepted: the
    /// supervisor has no final state. Any other event is refused with
    /// `None` and changes nothing.
    pub fn step(&mut self, event: Event) -> (next: Option<Step>)
        ensures
            final(self)@ == next_state(old(self)@, event@),
            accepts(old(self)@.phase, event@) <==> next is Some,
            next matches Some(step) ==> step@ == next_step(
                old(self)@.phase,
                old(self)@.port,
                event@,
            ),
    {
        let port = self.port;
        match self.phase {
            Phase::BackingOff => match event {
                Event::SpawnSucceeded => {
                    let mut effects: Vec<Effect> = Vec::new();
                    effects.push(Effect::Log { stream: LogStream::Standard, text: started_text() });
                    effects.push(
                        Effect::Publish { channel: Channel::Stdout, payload: started_text() },
                    );
                    let step = Step { effects, request: Request::ReadLine };
                    assert(step@.effects =~= started_step().effects);
                    self.phase = Phase::Running;
                    Some(step)
                },
                Event::SpawnFailed { error } => {
                    let mut effects: Vec<Effect> = Vec::new();
                    effects.push(
                        Effect::Log {
                            stream: LogStream::Error,
                            text: spawn_failed_text(error.as_str()),
                        },
                    );
                    effects.push(
                        Effect::Publish {
                            channel: Channel::Stderr,
                            payload: spawn_failed_text(error.as_str()),
                        },
                    );
                    effects.push(
                        Effect::Log { stream: LogStream::Standard, text: retrying_text() },
                    );
                    effects.push(Effect::Pause { seconds: BACKOFF_SECONDS });
                    push_announcement(&mut effects, port);
                    let step = Step { effects, request: spawn_request_for(port) };
                    assert(step@.effects =~= spawn_failed_step(port, error@).effects);
                    Some(step)
                },
                _ => None,
            },
            Phase::Running => match event {
                Event::StdoutLine { line } => {
                    let mut effects: Vec<Effect> = Vec::new();
                    effects.push(
                        Effect::Log {
                            stream: LogStream::Standard,
                            text: child_output_log_text(line.as_str()),
                        },
                    );
                    effects.push(Effect::Publish { channel: Channel::Stdout, payload: line });
                    let step = Step { effects, request: Request::ReadLine };
                    assert(step@.effects =~= stdout_step(line@).effects);
                    Some(step)
                },
                Event::StderrLine { line } => {
                    let mut effects: Vec<Effect> = Vec::new();
                    effects.push(
                        Effect::Log {
                            stream: LogStream::Error,
                            text: child_error_log_text(line.as_str()),
                        },
                    );
                    effects.push(Effect::Publish { channel: Channel::Stderr, payload: line });
                    let step = Step { effects, request: Request::ReadLine };
                    assert(step@.effects =~= stderr_step(line@).effects);
                    Some(step)
                },
                Event::Other => {
                    let step = Step { effects: Vec::new(), request: Request::ReadLine };
                    assert(step@.effects =~= ignored_step().effects);
                    Some(step)
                },
                Event::StreamClosed => {
                    let mut effects: Vec<Effect> = Vec::new();
                    effects.push(Effect::Log { stream: LogStream::Standard, text: exited_text() });
                    effects.push(
                        Effect::Publish { channel: Channel::Stderr, payload: exited_text() },
                    );
                    effects.push(Effect::Pause { seconds: BACKOFF_SECONDS });
                    push_announcement(&mut effects, port);
                    let step = Step { effects, request: spawn_request_for(port) };
                    assert(step@.effects =~= exited_step(port).effects);
                    self.phase = Phase::BackingOff;
                    Some(step)
                },
                _ => None,
            },
        }
    }
}

/// The arguments that the backend is started with.
pub fn launch_args(port: u16) -> (args: Vec<String>)
    ensures
        texts_view(args@) == launch_arguments(port),
{
    let mut args: Vec<String> = Vec::new();
    args.push(port_flag_text());
    args.push(decimal_string(port));
    assert(texts_view(args@) =~= launch_arguments(port));
    args
}

fn spawn_request_for(port: u16) -> (request: Request)
    ensures
        request@ == spawn_request(port),
{
    Request::Spawn { program: backend_program_text(), args: launch_args(port) }
}

fn push_announcement(effects: &mut Vec<Effect>, port: u16)
    ensures
        effects_view(final(effects)@) == effects_view(old(effects)@) + announce_effects(port),
{
    effects.push(Effect::Log { stream: LogStream::Standard, text: spawning_text(port) });
    effects.push(Effect::Publish { channel: Channel::Stdout, payload: spawning_text(port) });
    assert(effects_view(effects@) =~= effects_view(old(effects)@) + announce_effects(port));
}

} // verus!
