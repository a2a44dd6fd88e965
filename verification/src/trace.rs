//! What the supervisor does over a whole run: the effects and requests
//! that a sequence of events draws from it, and what holds of them.

use crate::messages::{
    contains_text, exited_line, lemma_failure_line_carries_reason, spawn_failed_line,
    spawning_line, started_line, BACKOFF_SECONDS,
};
use crate::supervisor::{
    accepts, attempt, exited_step, ignored_step, next_state, next_step, spawn_failed_step,
    spawn_request, started_step, stderr_step, stdout_step, Channel, EffectView, EventView, Phase,
    RequestView, SupervisorView,
};
use vstd::prelude::*;

verus! {

/// A run so far: the supervisor's state, every effect it has asked for, in
/// order, and every request it has made, in order.
pub ghost struct Trace {
    pub state: SupervisorView,
    pub effects: Seq<EffectView>,
    pub requests: Seq<RequestView>,
}

/// The run of a supervisor that was just started on `port`.
pub open spec fn begin(port: u16) -> Trace {
    Trace {
        state: SupervisorView { port, phase: Phase::BackingOff },
        effects: attempt(port).effects,
        requests: seq![attempt(port).request],
    }
}

/// The run after one more event. A refused event leaves it as it is.
pub open spec fn advance(trace: Trace, event: EventView) -> Trace {
    if accepts(trace.state.phase, event) {
        let step = next_step(trace.state.phase, trace.state.port, event);
        Trace {
            state: next_state(trace.state, event),
            effects: trace.effects + step.effects,
            requests: trace.requests.push(step.request),
        }
    } else {
        trace
    }
}

/// The run after a sequence of events, taken in order.
pub open spec fn run(trace: Trace, events: Seq<EventView>) -> Trace
    decreases events.len(),
{
    if events.len() == 0 {
        trace
    } else {
        advance(run(trace, events.drop_last()), events.last())
    }
}

/// The payloads published on `channel`, in order.
pub open spec fn published(effects: Seq<EffectView>, channel: Channel) -> Seq<Seq<char>>
    decreases effects.len(),
{
    if effects.len() == 0 {
        Seq::empty()
    } else {
        let before = published(effects.drop_last(), channel);
        match effects.last() {
            EffectView::Publish { channel: c, payload } => if c == channel {
                before.push(payload)
            } else {
                before
            },
            _ => before,
        }
    }
}

/// The waits, in order, each by its length in seconds.
pub open spec fn pauses(effects: Seq<EffectView>) -> Seq<u64>
    decreases effects.len(),
{
    if effects.len() == 0 {
        Seq::empty()
    } else {
        let before = pauses(effects.drop_last());
        match effects.last() {
            EffectView::Pause { seconds } => before.push(seconds),
            _ => before,
        }
    }
}

/// The lines that a sequence of events carries from the given output of
/// the process, in order.
pub open spec fn lines_of(events: Seq<EventView>, channel: Channel) -> Seq<Seq<char>>
    decreases events.len(),
{
    if events.len() == 0 {
        Seq::empty()
    } else {
        let before = lines_of(events.drop_last(), channel);
        match events.last() {
            EventView::StdoutLine { line } => if channel == Channel::Stdout {
                before.push(line)
            } else {
                before
            },
            EventView::StderrLine { line } => if channel == Channel::Stderr {
                before.push(line)
            } else {
                before
            },
            _ => before,
        }
    }
}

/// Whether an event is something that a running process reports before
/// its output ends.
pub open spec fn is_output(event: EventView) -> bool {
    event is StdoutLine || event is StderrLine || event is Other
}

/// `cycles` times over: the process starts, writes nothing, and exits.
pub open spec fn immediate_exits(cycles: nat) -> Seq<EventView>
    decreases cycles,
{
    if cycles == 0 {
        Seq::empty()
    } else {
        immediate_exits((cycles - 1) as nat).push(EventView::SpawnSucceeded).push(
            EventView::StreamClosed,
        )
    }
}

/// One failed start for each of the given reasons.
pub open spec fn failed_starts(errors: Seq<Seq<char>>) -> Seq<EventView> {
    Seq::new(errors.len(), |i: int| EventView::SpawnFailed { error: errors[i] })
}

/// What two lists of effects publish is what the first publishes, then
/// what the second does.
pub proof fn lemma_published_concat(a: Seq<EffectView>, b: Seq<EffectView>, channel: Channel)
    ensures
        published(a + b, channel) == published(a, channel) + published(b, channel),
    decreases b.len(),
{
    if b.len() == 0 {
        assert(a + b =~= a);
        assert(published(a, channel) + published(b, channel) =~= published(a, channel));
    } else {
        lemma_published_concat(a, b.drop_last(), channel);
        assert((a + b).drop_last() =~= a + b.drop_last());
        assert((a + b).last() == b.last());
        assert(published(a + b, channel) =~= published(a, channel) + published(b, channel));
    }
}

/// The waits of two lists of effects are those of the first, then those
/// of the second.
pub proof fn lemma_pauses_concat(a: Seq<EffectView>, b: Seq<EffectView>)
    ensures
        pauses(a + b) == pauses(a) + pauses(b),
    decreases b.len(),
{
    if b.len() == 0 {
        assert(a + b =~= a);
        assert(pauses(a) + pauses(b) =~= pauses(a));
    } else {
        lemma_pauses_concat(a, b.drop_last());
        assert((a + b).drop_last() =~= a + b.drop_last());
        assert((a + b).last() == b.last());
        assert(pauses(a + b) =~= pauses(a) + pauses(b));
    }
}

/// A run of one event is one step.
pub proof fn lemma_run_one(trace: Trace, event: EventView)
    ensures
        run(trace, seq![event]) == advance(trace, event),
{
    reveal_with_fuel(run, 2);
    assert(seq![event].drop_last() =~= Seq::<EventView>::empty());
}

/// A run can be taken in two parts.
pub proof fn lemma_run_concat(trace: Trace, first: Seq<EventView>, second: Seq<EventView>)
    ensures
        run(trace, first + second) == run(run(trace, first), second),
    decreases second.len(),
{
    if second.len() == 0 {
        assert(first + second =~= first);
    } else {
        lemma_run_concat(trace, first, second.drop_last());
        assert((first + second).drop_last() =~= first + second.drop_last());
        assert((first + second).last() == second.last());
    }
}

/// The supervisor has no final state, and the port it was given never
/// changes: whatever happens, it is waiting for the outcome of a request,
/// and every start it has asked for was for the program on that port.
pub proof fn lemma_run_keeps_port(port: u16, events: Seq<EventView>)
    ensures
        run(begin(port), events).state.port == port,
        run(begin(port), events).requests.len() >= 1,
        forall|i: int|
            0 <= i < run(begin(port), events).requests.len() ==> (#[trigger] run(
                begin(port),
                events,
            ).requests[i] is Spawn ==> run(begin(port), events).requests[i] == spawn_request(
                port,
            )),
        run(begin(port), events).state.phase == Phase::BackingOff <==> run(
            begin(port),
            events,
        ).requests.last() is Spawn,
    decreases events.len(),
{
    if events.len() > 0 {
        lemma_run_keeps_port(port, events.drop_last());
    }
}

/// What each kind of step shows to the outside: its waits, and what it
/// publishes on either channel.
///
/// A failed start and an ended process are followed by the same single
/// wait, and by the same announcement of the next start; nothing else
/// waits. A line of the process is published once, on the channel of the
/// output it came from, and as it came.
pub proof fn lemma_step_observations(port: u16, error: Seq<char>, line: Seq<char>)
    ensures
        pauses(attempt(port).effects) == Seq::<u64>::empty(),
        published(attempt(port).effects, Channel::Stdout) == seq![spawning_line(port)],
        published(attempt(port).effects, Channel::Stderr) == Seq::<Seq<char>>::empty(),
        pauses(started_step().effects) == Seq::<u64>::empty(),
        published(started_step().effects, Channel::Stdout) == seq![started_line()],
        published(started_step().effects, Channel::Stderr) == Seq::<Seq<char>>::empty(),
        pauses(spawn_failed_step(port, error).effects) == seq![BACKOFF_SECONDS],
        published(spawn_failed_step(port, error).effects, Channel::Stdout) == seq![
            spawning_line(port),
        ],
        published(spawn_failed_step(port, error).effects, Channel::Stderr) == seq![
            spawn_failed_line(error),
        ],
        pauses(exited_step(port).effects) == seq![BACKOFF_SECONDS],
        published(exited_step(port).effects, Channel::Stdout) == seq![spawning_line(port)],
        published(exited_step(port).effects, Channel::Stderr) == seq![exited_line()],
        pauses(stdout_step(line).effects) == Seq::<u64>::empty(),
        published(stdout_step(line).effects, Channel::Stdout) == seq![line],
        published(stdout_step(line).effects, Channel::Stderr) == Seq::<Seq<char>>::empty(),
        pauses(stderr_step(line).effects) == Seq::<u64>::empty(),
        published(stderr_step(line).effects, Channel::Stdout) == Seq::<Seq<char>>::empty(),
        published(stderr_step(line).effects, Channel::Stderr) == seq![line],
        pauses(ignored_step().effects) == Seq::<u64>::empty(),
        published(ignored_step().effects, Channel::Stdout) == Seq::<Seq<char>>::empty(),
        published(ignored_step().effects, Channel::Stderr) == Seq::<Seq<char>>::empty(),
{
    reveal_with_fuel(pauses, 8);
    reveal_with_fuel(published, 8);
}

/// A process that exits at once, without a line of output, is started
/// again after exactly one wait of the fixed length, cycle after cycle:
/// after any number of such cycles the supervisor has waited once per
/// cycle, has asked for one start more than there were cycles, each for
/// the same program on the same port, and is waiting for the outcome of
/// the latest.
pub proof fn lemma_immediate_exits_restart(port: u16, cycles: nat)
    ensures
        run(begin(port), immediate_exits(cycles)).state == (SupervisorView {
            port,
            phase: Phase::BackingOff,
        }),
        pauses(run(begin(port), immediate_exits(cycles)).effects) == Seq::new(
            cycles,
            |i: int| BACKOFF_SECONDS,
        ),
        run(begin(port), immediate_exits(cycles)).requests == Seq::new(
            2 * cycles + 1,
            |i: int|
                if i % 2 == 0 {
                    spawn_request(port)
                } else {
                    RequestView::ReadLine
                },
        ),
        published(run(begin(port), immediate_exits(cycles)).effects, Channel::Stderr) == Seq::new(
            cycles,
            |i: int| exited_line(),
        ),
    decreases cycles,
{
    let empty: Seq<char> = Seq::empty();
    lemma_step_observations(port, empty, empty);
    let trace = run(begin(port), immediate_exits(cycles));
    if cycles == 0 {
        assert(pauses(trace.effects) =~= Seq::new(cycles, |i: int| BACKOFF_SECONDS));
        assert(published(trace.effects, Channel::Stderr) =~= Seq::new(
            cycles,
            |i: int| exited_line(),
        ));
        assert(trace.requests =~= Seq::new(
            2 * cycles + 1,
            |i: int|
                if i % 2 == 0 {
                    spawn_request(port)
                } else {
                    RequestView::ReadLine
                },
        ));
    } else {
        let fewer = (cycles - 1) as nat;
        lemma_immediate_exits_restart(port, fewer);
        let before = run(begin(port), immediate_exits(fewer));
        let events = immediate_exits(cycles);
        let started = immediate_exits(fewer).push(EventView::SpawnSucceeded);
        assert(events.drop_last() =~= started);
        assert(started.drop_last() =~= immediate_exits(fewer));
        let middle = advance(before, EventView::SpawnSucceeded);
        assert(run(begin(port), started) == middle);
        assert(trace == advance(middle, EventView::StreamClosed));
        lemma_pauses_concat(before.effects, started_step().effects);
        lemma_pauses_concat(middle.effects, exited_step(port).effects);
        lemma_published_concat(before.effects, started_step().effects, Channel::Stderr);
        lemma_published_concat(middle.effects, exited_step(port).effects, Channel::Stderr);
        assert(pauses(trace.effects) =~= Seq::new(cycles, |i: int| BACKOFF_SECONDS));
        assert(published(trace.effects, Channel::Stderr) =~= Seq::new(
            cycles,
            |i: int| exited_line(),
        ));
        assert(trace.requests =~= Seq::new(
            2 * cycles + 1,
            |i: int|
                if i % 2 == 0 {
                    spawn_request(port)
                } else {
                    RequestView::ReadLine
                },
        ));
    }
}

/// A start that fails is reported with its reason and tried again after
/// the same wait as follows an exit: after any number of failed starts in
/// a row the supervisor has published one failure line per failure on the
/// error channel, each holding the reason it was given, has waited once
/// per failure, and has asked for one start more than failed, each for the
/// same program on the same port.
pub proof fn lemma_failed_starts_retry(port: u16, errors: Seq<Seq<char>>)
    ensures
        run(begin(port), failed_starts(errors)).state == (SupervisorView {
            port,
            phase: Phase::BackingOff,
        }),
        pauses(run(begin(port), failed_starts(errors)).effects) == Seq::new(
            errors.len(),
            |i: int| BACKOFF_SECONDS,
        ),
        pauses(run(begin(port), failed_starts(errors)).effects) == pauses(
            run(begin(port), immediate_exits(errors.len())).effects,
        ),
        run(begin(port), failed_starts(errors)).requests == Seq::new(
            errors.len() + 1,
            |i: int| spawn_request(port),
        ),
        published(run(begin(port), failed_starts(errors)).effects, Channel::Stderr) == Seq::new(
            errors.len(),
            |i: int| spawn_failed_line(errors[i]),
        ),
        forall|i: int|
            0 <= i < errors.len() ==> contains_text(
                #[trigger] published(
                    run(begin(port), failed_starts(errors)).effects,
                    Channel::Stderr,
                )[i],
                errors[i],
            ),
    decreases errors.len(),
{
    let trace = run(begin(port), failed_starts(errors));
    let empty: Seq<char> = Seq::empty();
    lemma_immediate_exits_restart(port, errors.len());
    if errors.len() == 0 {
        lemma_step_observations(port, empty, empty);
        assert(pauses(trace.effects) =~= Seq::new(errors.len(), |i: int| BACKOFF_SECONDS));
        assert(trace.requests =~= Seq::new(errors.len() + 1, |i: int| spawn_request(port)));
        assert(published(trace.effects, Channel::Stderr) =~= Seq::new(
            errors.len(),
            |i: int| spawn_failed_line(errors[i]),
        ));
    } else {
        let fewer = errors.drop_last();
        let error = errors.last();
        lemma_failed_starts_retry(port, fewer);
        lemma_step_observations(port, error, empty);
        let before = run(begin(port), failed_starts(fewer));
        assert(failed_starts(errors).drop_last() =~= failed_starts(fewer));
        assert(failed_starts(errors).last() == EventView::SpawnFailed { error });
        assert(trace == advance(before, EventView::SpawnFailed { error }));
        lemma_pauses_concat(before.effects, spawn_failed_step(port, error).effects);
        lemma_published_concat(
            before.effects,
            spawn_failed_step(port, error).effects,
            Channel::Stderr,
        );
        assert(pauses(trace.effects) =~= Seq::new(errors.len(), |i: int| BACKOFF_SECONDS));
        assert(trace.requests =~= Seq::new(errors.len() + 1, |i: int| spawn_request(port)));
        assert(published(trace.effects, Channel::Stderr) =~= Seq::new(
            errors.len(),
            |i: int| spawn_failed_line(errors[i]),
        ));
    }
    assert forall|i: int| 0 <= i < errors.len() implies contains_text(
        #[trigger] published(trace.effects, Channel::Stderr)[i],
        errors[i],
    ) by {
        lemma_failure_line_carries_reason(errors[i]);
    }
}

/// Every line that a running process writes is published once, as it
/// came, on the channel of the output it came from, and in the order in
/// which it came; nothing else is published while the process runs, and
/// the supervisor neither waits nor stops reading.
pub proof fn lemma_output_relayed_in_order(trace: Trace, events: Seq<EventView>)
    requires
        trace.state.phase == Phase::Running,
        forall|i: int| 0 <= i < events.len() ==> is_output(#[trigger] events[i]),
    ensures
        run(trace, events).state == trace.state,
        published(run(trace, events).effects, Channel::Stdout) == published(
            trace.effects,
            Channel::Stdout,
        ) + lines_of(events, Channel::Stdout),
        published(run(trace, events).effects, Channel::Stderr) == published(
            trace.effects,
            Channel::Stderr,
        ) + lines_of(events, Channel::Stderr),
        pauses(run(trace, events).effects) == pauses(trace.effects),
        run(trace, events).requests == trace.requests + Seq::new(
            events.len(),
            |i: int| RequestView::ReadLine,
        ),
    decreases events.len(),
{
    let end = run(trace, events);
    let reads = Seq::new(events.len(), |i: int| RequestView::ReadLine);
    if events.len() == 0 {
        assert(published(trace.effects, Channel::Stdout) + lines_of(events, Channel::Stdout)
            =~= published(trace.effects, Channel::Stdout));
        assert(published(trace.effects, Channel::Stderr) + lines_of(events, Channel::Stderr)
            =~= published(trace.effects, Channel::Stderr));
        assert(end.requests =~= trace.requests + reads);
    } else {
        let earlier = events.drop_last();
        let event = events.last();
        lemma_output_relayed_in_order(trace, earlier);
        let before = run(trace, earlier);
        let step = next_step(Phase::Running, trace.state.port, event);
        assert(is_output(event));
        let line = match event {
            EventView::StdoutLine { line } => line,
            EventView::StderrLine { line } => line,
            _ => Seq::empty(),
        };
        lemma_step_observations(trace.state.port, line, line);
        lemma_pauses_concat(before.effects, step.effects);
        lemma_published_concat(before.effects, step.effects, Channel::Stdout);
        lemma_published_concat(before.effects, step.effects, Channel::Stderr);
        assert(pauses(end.effects) =~= pauses(trace.effects));
        assert(published(end.effects, Channel::Stdout) =~= published(
            trace.effects,
            Channel::Stdout,
        ) + lines_of(events, Channel::Stdout));
        assert(published(end.effects, Channel::Stderr) =~= published(
            trace.effects,
            Channel::Stderr,
        ) + lines_of(events, Channel::Stderr));
        assert(end.requests =~= trace.requests + reads);
    }
}

/// The whole life of one process: it starts, reports `outputs`, and its
/// output ends.
pub open spec fn process_life(outputs: Seq<EventView>) -> Seq<EventView> {
    seq![EventView::SpawnSucceeded] + outputs + seq![EventView::StreamClosed]
}

/// Over the life of one process, all that it wrote has been published
/// before its end is: on the output channel its lines stand, in order,
/// between the notice that it started and the announcement of the next
/// start; on the error channel they stand before the notice that it
/// exited. The supervisor waits once, after the end, and then asks for the
/// next start.
pub proof fn lemma_process_life(trace: Trace, outputs: Seq<EventView>)
    requires
        trace.state.phase == Phase::BackingOff,
        forall|i: int| 0 <= i < outputs.len() ==> is_output(#[trigger] outputs[i]),
    ensures
        run(trace, process_life(outputs)).state == trace.state,
        published(run(trace, process_life(outputs)).effects, Channel::Stdout) == published(
            trace.effects,
            Channel::Stdout,
        ) + seq![started_line()] + lines_of(outputs, Channel::Stdout) + seq![
            spawning_line(trace.state.port),
        ],
        published(run(trace, process_life(outputs)).effects, Channel::Stderr) == published(
            trace.effects,
            Channel::Stderr,
        ) + lines_of(outputs, Channel::Stderr) + seq![exited_line()],
        pauses(run(trace, process_life(outputs)).effects) == pauses(trace.effects) + seq![
            BACKOFF_SECONDS,
        ],
        run(trace, process_life(outputs)).requests == trace.requests + Seq::new(
            outputs.len() + 1,
            |i: int| RequestView::ReadLine,
        ) + seq![spawn_request(trace.state.port)],
{
    let port = trace.state.port;
    let empty: Seq<char> = Seq::empty();
    lemma_step_observations(port, empty, empty);
    let first = seq![EventView::SpawnSucceeded];
    let last = seq![EventView::StreamClosed];
    let started = run(trace, first);
    lemma_run_one(trace, EventView::SpawnSucceeded);
    lemma_run_concat(trace, first, outputs);
    let read = run(started, outputs);
    lemma_output_relayed_in_order(started, outputs);
    lemma_run_concat(trace, first + outputs, last);
    let end = run(trace, process_life(outputs));
    lemma_run_one(read, EventView::StreamClosed);
    assert(end == advance(read, EventView::StreamClosed));
    lemma_pauses_concat(trace.effects, started_step().effects);
    lemma_published_concat(trace.effects, started_step().effects, Channel::Stdout);
    lemma_published_concat(trace.effects, started_step().effects, Channel::Stderr);
    lemma_pauses_concat(read.effects, exited_step(port).effects);
    lemma_published_concat(read.effects, exited_step(port).effects, Channel::Stdout);
    lemma_published_concat(read.effects, exited_step(port).effects, Channel::Stderr);
    assert(pauses(end.effects) =~= pauses(trace.effects) + seq![BACKOFF_SECONDS]);
    assert(published(end.effects, Channel::Stdout) =~= published(trace.effects, Channel::Stdout)
        + seq![started_line()] + lines_of(outputs, Channel::Stdout) + seq![spawning_line(port)]);
    assert(published(end.effects, Channel::Stderr) =~= published(trace.effects, Channel::Stderr)
        + lines_of(outputs, Channel::Stderr) + seq![exited_line()]);
    assert(end.requests =~= trace.requests + Seq::new(
        outputs.len() + 1,
        |i: int| RequestView::ReadLine,
    ) + seq![spawn_request(port)]);
}

} // verus!
