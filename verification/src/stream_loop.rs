//! The streaming thread's outer loop: connect, stream, and on failure report
//! the error and retry after three seconds, until the user stops it.
//!
//! [`StreamLoop::step`] holds the loop's decisions.  The thread that drives
//! it reports whether streaming is still wanted and how each attempt ended,
//! and carries out the returned [`LoopCommand`], sending the returned events
//! to the user interface first.  An attempt itself reports its progress
//! (`Connected`, `Streaming`, log lines); the loop alone announces an attempt
//! (`Connecting`) and its end (`Disconnected`).
use vstd::prelude::*;
use crate::audio::{AudioEvent, AudioEventView, StreamState};
use crate::text::{decimal, push_decimal};

verus! {

/// How many 100 ms pauses make up the wait before a reconnection.
pub const RETRY_PAUSES: u32 = 30;

/// Where the loop stands.
#[derive(Debug, Clone, Copy, PartialEq, Eq, Structural)]
pub enum LoopPhase {
    /// At the top of the loop, about to check whether to go on.
    Ready,
    /// An attempt to connect and stream is running.
    Streaming,
    /// Waiting before a reconnection; this many pauses are left.
    Retrying(u32),
    /// The loop has ended.
    Finished,
}

/// What the driving thread reports.
pub enum LoopInput {
    /// Whether streaming is still wanted.
    Running(bool),
    /// The attempt ended, with the error text if it failed, and whether
    /// streaming is still wanted.
    StreamEnded { error: Option<String>, running: bool },
}

/// The mathematical value of a [`LoopInput`].
pub enum LoopInputView {
    Running(bool),
    StreamEnded { error: Option<Seq<char>>, running: bool },
}

impl View for LoopInput {
    type V = LoopInputView;

    open spec fn view(&self) -> LoopInputView {
        match self {
            LoopInput::Running(r) => LoopInputView::Running(*r),
            LoopInput::StreamEnded { error, running } => LoopInputView::StreamEnded {
                error: match error {
                    Some(e) => Some(e@),
                    None => None,
                },
                running: *running,
            },
        }
    }
}

/// What the driving thread must do next.
#[derive(Debug, Clone, Copy, PartialEq, Eq, Structural)]
pub enum LoopCommand {
    /// Report whether streaming is still wanted.
    Check,
    /// Connect and stream until the connection ends or streaming is no
    /// longer wanted, then report how it ended.
    RunStream,
    /// Sleep 100 ms, then report whether streaming is still wanted.
    Pause,
    /// End the thread.
    Exit,
}

/// The outer loop of the streaming thread, for one receiver.
pub struct StreamLoop {
    pub phase: LoopPhase,
    pub server: String,
    pub port: u16,
}

/// The line logged when an attempt starts.
pub open spec fn connecting_line(server: Seq<char>, port: u16) -> Seq<char> {
    "Connecting to "@ + server + ":"@ + decimal(port as nat) + "..."@
}

/// The line logged when an attempt fails.
pub open spec fn error_line(error: Seq<char>) -> Seq<char> {
    "Error: "@ + error
}

/// The line logged before the wait for a reconnection.
pub open spec fn retry_line() -> Seq<char> {
    "Reconnecting in 3s..."@
}

/// The line logged when an attempt ends cleanly.
pub open spec fn disconnected_line() -> Seq<char> {
    "Disconnected"@
}

/// The loop's rule: the next phase, the events to send, and the command.
pub open spec fn loop_step(phase: LoopPhase, server: Seq<char>, port: u16, input: LoopInputView) -> (
    LoopPhase,
    Seq<AudioEventView>,
    LoopCommand,
) {
    match phase {
        LoopPhase::Finished => (LoopPhase::Finished, Seq::empty(), LoopCommand::Exit),
        LoopPhase::Ready => match input {
            LoopInputView::Running(true) => (
                LoopPhase::Streaming,
                seq![
                    AudioEventView::StateChanged(StreamState::Connecting),
                    AudioEventView::Log(connecting_line(server, port)),
                ],
                LoopCommand::RunStream,
            ),
            LoopInputView::Running(false) => (
                LoopPhase::Finished,
                seq![AudioEventView::StateChanged(StreamState::Disconnected)],
                LoopCommand::Exit,
            ),
            LoopInputView::StreamEnded { .. } => (LoopPhase::Ready, Seq::empty(), LoopCommand::Check),
        },
        LoopPhase::Streaming => match input {
            LoopInputView::StreamEnded { error: None, .. } => (
                LoopPhase::Ready,
                seq![
                    AudioEventView::StateChanged(StreamState::Disconnected),
                    AudioEventView::Log(disconnected_line()),
                ],
                LoopCommand::Check,
            ),
            LoopInputView::StreamEnded { error: Some(e), running } => if running {
                (
                    LoopPhase::Retrying(RETRY_PAUSES),
                    seq![
                        AudioEventView::Log(error_line(e)),
                        AudioEventView::StateChanged(StreamState::Disconnected),
                        AudioEventView::Log(retry_line()),
                    ],
                    LoopCommand::Check,
                )
            } else {
                (
                    LoopPhase::Finished,
                    seq![AudioEventView::StateChanged(StreamState::Disconnected)],
                    LoopCommand::Exit,
                )
            },
            LoopInputView::Running(_) => (LoopPhase::Streaming, Seq::empty(), LoopCommand::RunStream),
        },
        LoopPhase::Retrying(left) => match input {
            LoopInputView::Running(false) => (LoopPhase::Finished, Seq::empty(), LoopCommand::Exit),
            LoopInputView::Running(true) => (
                if left <= 1 {
                    LoopPhase::Ready
                } else {
                    LoopPhase::Retrying((left - 1) as u32)
                },
                Seq::empty(),
                LoopCommand::Pause,
            ),
            LoopInputView::StreamEnded { .. } => (
                LoopPhase::Retrying(left),
                Seq::empty(),
                LoopCommand::Check,
            ),
        },
    }
}

/// The views of a sequence of events.
pub open spec fn events_view(v: Seq<AudioEvent>) -> Seq<AudioEventView> {
    v.map_values(|e: AudioEvent| e@)
}

impl StreamLoop {
    /// A loop for the receiver at `server`:`port`, at its top.
    pub fn new(server: String, port: u16) -> (r: StreamLoop)
        ensures
            r.phase == LoopPhase::Ready,
            r.server@ == server@,
            r.port == port,
    {
        StreamLoop { phase: LoopPhase::Ready, server, port }
    }

    /// Takes in what the driving thread reports and answers with the events
    /// to send and what to do next.
    pub fn step(&mut self, input: LoopInput) -> (r: (Vec<AudioEvent>, LoopCommand))
        ensures
            final(self).server == old(self).server,
            final(self).port == old(self).port,
            (final(self).phase, events_view(r.0@), r.1) == loop_step(
                old(self).phase,
                old(self).server@,
                old(self).port,
                input@,
            ),
    {
        let ghost iv = input@;
        let mut events: Vec<AudioEvent> = Vec::new();
        let command;
        match self.phase {
            LoopPhase::Finished => {
                command = LoopCommand::Exit;
            },
            LoopPhase::Ready => match input {
                LoopInput::Running(true) => {
                    events.push(AudioEvent::StateChanged(StreamState::Connecting));
                    let mut line = String::from_str("Connecting to ");
                    line.append(self.server.as_str());
                    line.append(":");
                    push_decimal(&mut line, self.port as u64);
                    line.append("...");
                    events.push(AudioEvent::Log(line));
                    self.phase = LoopPhase::Streaming;
                    command = LoopCommand::RunStream;
                },
                LoopInput::Running(false) => {
                    events.push(AudioEvent::StateChanged(StreamState::Disconnected));
                    self.phase = LoopPhase::Finished;
                    command = LoopCommand::Exit;
                },
                LoopInput::StreamEnded { .. } => {
                    command = LoopCommand::Check;
                },
            },
            LoopPhase::Streaming => match input {
                LoopInput::StreamEnded { error: None, .. } => {
                    events.push(AudioEvent::StateChanged(StreamState::Disconnected));
                    events.push(AudioEvent::Log(String::from_str("Disconnected")));
                    self.phase = LoopPhase::Ready;
                    command = LoopCommand::Check;
                },
                LoopInput::StreamEnded { error: Some(e), running } => {
                    if running {
                        let mut line = String::from_str("Error: ");
                        line.append(e.as_str());
                        events.push(AudioEvent::Log(line));
                        events.push(AudioEvent::StateChanged(StreamState::Disconnected));
                        events.push(AudioEvent::Log(String::from_str("Reconnecting in 3s...")));
                        self.phase = LoopPhase::Retrying(RETRY_PAUSES);
                        command = LoopCommand::Check;
                    } else {
                        events.push(AudioEvent::StateChanged(StreamState::Disconnected));
                        self.phase = LoopPhase::Finished;
                        command = LoopCommand::Exit;
                    }
                },
                LoopInput::Running(_) => {
                    command = LoopCommand::RunStream;
                },
            },
            LoopPhase::Retrying(left) => match input {
                LoopInput::Running(false) => {
                    self.phase = LoopPhase::Finished;
                    command = LoopCommand::Exit;
                },
                LoopInput::Running(true) => {
                    self.phase = if left <= 1 {
                        LoopPhase::Ready
                    } else {
                        LoopPhase::Retrying(left - 1)
                    };
                    command = LoopCommand::Pause;
                },
                LoopInput::StreamEnded { .. } => {
                    command = LoopCommand::Check;
                },
            },
        }
        assert(events_view(events@) =~= loop_step(
            old(self).phase,
            old(self).server@,
            old(self).port,
            iv,
        ).1);
        (events, command)
    }
}

/// Every attempt to stream is announced: the step that answers `RunStream`
/// after a check sends `Connecting` and then the line naming the receiver.
pub proof fn lemma_attempt_announced(phase: LoopPhase, server: Seq<char>, port: u16, running: bool)
    requires
        phase != LoopPhase::Streaming,
        loop_step(phase, server, port, LoopInputView::Running(running)).2 == LoopCommand::RunStream,
    ensures
        loop_step(phase, server, port, LoopInputView::Running(running)).1 == seq![
            AudioEventView::StateChanged(StreamState::Connecting),
            AudioEventView::Log(connecting_line(server, port)),
        ],
{
}

/// Once streaming is no longer wanted, the loop ends at the next check, and
/// an ended loop stays ended, sends nothing and only says to exit.
pub proof fn lemma_stops(phase: LoopPhase, server: Seq<char>, port: u16, input: LoopInputView)
    ensures
        phase != LoopPhase::Streaming && input == LoopInputView::Running(false) ==> loop_step(
            phase,
            server,
            port,
            input,
        ).0 == LoopPhase::Finished && loop_step(phase, server, port, input).2
            == LoopCommand::Exit,
        phase == LoopPhase::Finished ==> loop_step(phase, server, port, input) == (
            LoopPhase::Finished,
            Seq::<AudioEventView>::empty(),
            LoopCommand::Exit,
        ),
{
}

/// A failed attempt while streaming is still wanted is reported as the
/// error, then `Disconnected`, then the retry notice, and is followed by
/// the full wait of 30 pauses before the next attempt.
pub proof fn lemma_failure_reported(server: Seq<char>, port: u16, e: Seq<char>)
    ensures
        loop_step(
            LoopPhase::Streaming,
            server,
            port,
            LoopInputView::StreamEnded { error: Some(e), running: true },
        ) == (
            LoopPhase::Retrying(RETRY_PAUSES),
            seq![
                AudioEventView::Log(error_line(e)),
                AudioEventView::StateChanged(StreamState::Disconnected),
                AudioEventView::Log(retry_line()),
            ],
            LoopCommand::Check,
        ),
{
}

// ---------------------------------------------------------------------------
// Announced attempts and their ends, over whole runs
// ---------------------------------------------------------------------------

/// Whether an attempt may send `e` while it runs: anything but an
/// announcement (`Connecting`), which is the loop's alone; where `strict`,
/// not a report that it ended (`Disconnected`) either.
pub open spec fn attempt_event_allowed(e: AudioEventView, strict: bool) -> bool {
    &&& e != AudioEventView::StateChanged(StreamState::Connecting)
    &&& strict ==> e != AudioEventView::StateChanged(StreamState::Disconnected)
}

/// Reads one event: `last` is the latest of `Connecting` and `Disconnected`
/// seen so far.  `None` where a `Connecting` comes while the attempt it
/// would follow was announced and never reported ended.
pub open spec fn after_marker(last: Option<StreamState>, e: AudioEventView) -> Option<
    Option<StreamState>,
> {
    if e == AudioEventView::StateChanged(StreamState::Connecting) {
        if last == Some(StreamState::Connecting) {
            None
        } else {
            Some(Some(StreamState::Connecting))
        }
    } else if e == AudioEventView::StateChanged(StreamState::Disconnected) {
        Some(Some(StreamState::Disconnected))
    } else {
        Some(last)
    }
}

/// Reads `events` in order from `last`: the latest of `Connecting` and
/// `Disconnected` at the end, or `None` where some `Connecting` is not
/// preceded by a `Disconnected` since the `Connecting` before it.
pub open spec fn paired_from(last: Option<StreamState>, events: Seq<AudioEventView>) -> Option<
    Option<StreamState>,
>
    decreases events.len(),
{
    if events.len() == 0 {
        Some(last)
    } else {
        match after_marker(last, events[0]) {
            Some(l) => paired_from(l, events.drop_first()),
            None => None,
        }
    }
}

/// The events of a run of the loop from `phase`: each step is what the
/// running attempt sent before the driving thread reported, then that
/// report.  The phase at the end, and every event sent, in order.
pub open spec fn run_events(
    phase: LoopPhase,
    server: Seq<char>,
    port: u16,
    steps: Seq<(Seq<AudioEventView>, LoopInputView)>,
) -> (LoopPhase, Seq<AudioEventView>)
    decreases steps.len(),
{
    if steps.len() == 0 {
        (phase, Seq::empty())
    } else {
        let s = loop_step(phase, server, port, steps[0].1);
        let rest = run_events(s.0, server, port, steps.drop_first());
        (rest.0, steps[0].0 + s.1 + rest.1)
    }
}

/// How the loop's phase goes with the latest announcement or end sent;
/// where `strict` (the attempts report no end themselves), an attempt runs
/// exactly while the latest is its announcement.
pub open spec fn marker_agrees(phase: LoopPhase, last: Option<StreamState>, strict: bool) -> bool {
    match phase {
        LoopPhase::Streaming => strict ==> last == Some(StreamState::Connecting),
        LoopPhase::Ready => last != Some(StreamState::Connecting),
        _ => last == Some(StreamState::Disconnected),
    }
}

proof fn lemma_paired_concat(last: Option<StreamState>, a: Seq<AudioEventView>, b: Seq<AudioEventView>)
    ensures
        paired_from(last, a + b) == match paired_from(last, a) {
            Some(l) => paired_from(l, b),
            None => None,
        },
    decreases a.len(),
{
    if a.len() > 0 {
        assert((a + b)[0] == a[0]);
        assert((a + b).drop_first() =~= a.drop_first() + b);
        match after_marker(last, a[0]) {
            Some(l) => lemma_paired_concat(l, a.drop_first(), b),
            None => {},
        }
    } else {
        assert(a + b =~= b);
    }
}

proof fn lemma_attempt_events(last: Option<StreamState>, a: Seq<AudioEventView>, strict: bool)
    requires
        forall|i: int| 0 <= i < a.len() ==> attempt_event_allowed(#[trigger] a[i], strict),
    ensures
        paired_from(last, a) matches Some(l) && (l == last || (!strict && l == Some(
            StreamState::Disconnected,
        ))),
    decreases a.len(),
{
    if a.len() > 0 {
        assert(attempt_event_allowed(a[0], strict));
        assert forall|i: int| 0 <= i < a.drop_first().len() implies attempt_event_allowed(
            #[trigger] a.drop_first()[i],
            strict,
        ) by {
            assert(a.drop_first()[i] == a[i + 1]);
        }
        let next = after_marker(last, a[0])->0;
        lemma_attempt_events(next, a.drop_first(), strict);
    }
}

proof fn lemma_step_agrees(
    phase: LoopPhase,
    server: Seq<char>,
    port: u16,
    input: LoopInputView,
    last: Option<StreamState>,
    strict: bool,
)
    requires
        marker_agrees(phase, last, strict),
    ensures
        paired_from(last, loop_step(phase, server, port, input).1) matches Some(l) && marker_agrees(
            loop_step(phase, server, port, input).0,
            l,
            strict,
        ),
{
    let evs = loop_step(phase, server, port, input).1;
    reveal_with_fuel(paired_from, 4);
    if evs.len() >= 2 {
        assert(evs.drop_first()[0] == evs[1]);
    }
    if evs.len() >= 3 {
        assert(evs.drop_first().drop_first()[0] == evs[2]);
    }
}

proof fn lemma_run_agrees(
    phase: LoopPhase,
    server: Seq<char>,
    port: u16,
    steps: Seq<(Seq<AudioEventView>, LoopInputView)>,
    last: Option<StreamState>,
    strict: bool,
)
    requires
        marker_agrees(phase, last, strict),
        forall|i: int, j: int|
            0 <= i < steps.len() && 0 <= j < steps[i].0.len() ==> attempt_event_allowed(
                #[trigger] steps[i].0[j],
                strict,
            ),
    ensures
        paired_from(last, run_events(phase, server, port, steps).1) matches Some(l)
            && marker_agrees(run_events(phase, server, port, steps).0, l, strict),
    decreases steps.len(),
{
    if steps.len() > 0 {
        let outside = steps[0].0;
        let s = loop_step(phase, server, port, steps[0].1);
        let rest_steps = steps.drop_first();
        let rest = run_events(s.0, server, port, rest_steps);
        assert forall|j: int| 0 <= j < outside.len() implies attempt_event_allowed(
            #[trigger] outside[j],
            strict,
        ) by {
            assert(steps[0].0[j] == outside[j]);
        }
        lemma_attempt_events(last, outside, strict);
        let l0 = paired_from(last, outside)->0;
        lemma_step_agrees(phase, server, port, steps[0].1, l0, strict);
        let l1 = paired_from(l0, s.1)->0;
        assert forall|i: int, j: int|
            0 <= i < rest_steps.len() && 0 <= j < rest_steps[i].0.len() implies attempt_event_allowed(
            #[trigger] rest_steps[i].0[j],
            strict,
        ) by {
            assert(rest_steps[i] == steps[i + 1]);
        }
        lemma_run_agrees(s.0, server, port, rest_steps, l1, strict);
        lemma_paired_concat(last, outside, s.1);
        lemma_paired_concat(last, outside + s.1, rest.1);
    }
}

/// Every announced attempt is reported ended before the next one is
/// announced, and a loop that has ended last reported `Disconnected`: over
/// any run of the loop from its start, whatever the driving thread reports,
/// and with whatever the attempts send while they run (any events but
/// `Connecting`, which only the loop sends; an attempt may itself report
/// `Disconnected`), no `Connecting` follows a `Connecting` without a
/// `Disconnected` between them; where the latest of the two is
/// `Connecting`, an attempt is running; and once the loop has ended, the
/// latest is `Disconnected`.
pub proof fn lemma_attempts_paired(
    server: Seq<char>,
    port: u16,
    steps: Seq<(Seq<AudioEventView>, LoopInputView)>,
)
    requires
        forall|i: int, j: int|
            0 <= i < steps.len() && 0 <= j < steps[i].0.len() ==> #[trigger] steps[i].0[j]
                != AudioEventView::StateChanged(StreamState::Connecting),
    ensures
        paired_from(None, run_events(LoopPhase::Ready, server, port, steps).1) matches Some(l) && (
        l == Some(StreamState::Connecting) ==> run_events(LoopPhase::Ready, server, port, steps).0
            == LoopPhase::Streaming) && (run_events(LoopPhase::Ready, server, port, steps).0
            == LoopPhase::Finished ==> l == Some(StreamState::Disconnected)),
{
    assert forall|i: int, j: int|
        0 <= i < steps.len() && 0 <= j < steps[i].0.len() implies attempt_event_allowed(
        #[trigger] steps[i].0[j],
        false,
    ) by {}
    lemma_run_agrees(LoopPhase::Ready, server, port, steps, None, false);
}

/// Where the attempts themselves report neither an announcement nor an end
/// (the loop sends both), the latest of `Connecting` and `Disconnected` is
/// `Connecting` exactly while an attempt runs, besides all that
/// [`lemma_attempts_paired`] states.
pub proof fn lemma_attempts_paired_exactly(
    server: Seq<char>,
    port: u16,
    steps: Seq<(Seq<AudioEventView>, LoopInputView)>,
)
    requires
        forall|i: int, j: int|
            0 <= i < steps.len() && 0 <= j < steps[i].0.len() ==> attempt_event_allowed(
                #[trigger] steps[i].0[j],
                true,
            ),
    ensures
        paired_from(None, run_events(LoopPhase::Ready, server, port, steps).1) matches Some(l) && (
        l == Some(StreamState::Connecting) <==> run_events(LoopPhase::Ready, server, port, steps).0
            == LoopPhase::Streaming) && (run_events(LoopPhase::Ready, server, port, steps).0
            == LoopPhase::Finished ==> l == Some(StreamState::Disconnected)),
{
    lemma_run_agrees(LoopPhase::Ready, server, port, steps, None, true);
}

} // verus!
