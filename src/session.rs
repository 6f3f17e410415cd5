//! The lifecycle of a full-screen terminal session, as a state machine.
//!
//! The caller performs each [`Action`] on the terminal and reports how it went
//! as an [`Event`]; the session decides what comes next. Once the terminal has
//! entered raw, alternate-screen mode, every path out of the session passes
//! through exactly one [`Action::RestoreMode`] before [`Action::Finish`].
use vstd::prelude::*;
use crate::keys::{InputEvent, KeyCode, KeyCommand, KeyEventKind, event_command, requests_quit};

verus! {

/// How long one poll for input may block, in milliseconds.
pub const POLL_TIMEOUT_MS: u64 = 50;

/// The terminal operation that failed.
#[derive(Clone, Copy, Debug, PartialEq, Eq, Structural)]
pub enum Fault {
    Enter,
    Draw,
    Poll,
    Restore,
}

/// Where the session stands.
#[derive(Clone, Copy, Debug, PartialEq, Eq, Structural)]
pub enum Phase {
    /// Waiting for the terminal to enter raw, alternate-screen mode.
    Entering,
    /// Waiting for a frame to be drawn.
    Drawing,
    /// Waiting for the bounded poll for input.
    Polling,
    /// The loop is over; waiting for the terminal mode to be restored.
    Quitting,
    /// The session has ended with the outcome it holds.
    Finished,
}

/// How a session ended.
#[derive(Clone, Copy, Debug, PartialEq, Eq, Structural)]
pub enum Outcome {
    /// A quit key ended the loop and the terminal mode was restored.
    Completed,
    /// A terminal operation failed; after a failed draw or poll, this is that
    /// failure even when the restoration that followed failed too.
    Failed(Fault),
}

/// What the caller is to do next.
#[derive(Clone, Copy, Debug, PartialEq, Eq, Structural)]
pub enum Action {
    /// Enable raw mode, enter the alternate screen, capture the mouse.
    EnterMode,
    /// Draw one frame.
    DrawFrame,
    /// Wait at most `timeout_ms` for an input event, and read it if one came.
    PollInput { timeout_ms: u64 },
    /// Disable raw mode, leave the alternate screen, release the mouse, show
    /// the cursor.
    RestoreMode,
    /// The session is over: return this outcome.
    Finish(Outcome),
}

/// How the last action went.
#[derive(Clone, Copy, Debug, PartialEq, Eq, Structural)]
pub enum Event {
    ModeEntered,
    EnterFailed,
    FrameDrawn,
    DrawFailed,
    /// The poll timed out with no input.
    NoInput,
    Input(InputEvent),
    PollFailed,
    ModeRestored,
    RestoreFailed,
}

/// The state of one session.
#[derive(Clone, Copy, Debug, PartialEq, Eq, Structural)]
pub struct Session {
    pub phase: Phase,
    /// Set by a quit key; once set the loop ends.
    pub should_quit: bool,
    /// Whether the terminal entered raw, alternate-screen mode.
    pub entered: bool,
    /// How many times a restoration of the terminal mode was asked for.
    pub restorations: u8,
    /// The failure that ended the loop, if any.
    pub fault: Option<Fault>,
    /// What the session returns; meaningful once finished.
    pub outcome: Outcome,
}

impl Session {
    /// The invariant that every reachable session state keeps.
    pub open spec fn wf(self) -> bool {
        &&& self.restorations <= 1
        &&& match self.phase {
            Phase::Entering => !self.entered && self.restorations == 0 && !self.should_quit
                && self.fault is None,
            Phase::Drawing | Phase::Polling => self.entered && self.restorations == 0
                && !self.should_quit && self.fault is None,
            Phase::Quitting => self.entered && self.restorations == 1
                && (self.should_quit <==> self.fault is None),
            Phase::Finished => {
                &&& self.restorations == (if self.entered { 1u8 } else { 0u8 })
                &&& self.fault matches Some(f) ==> self.outcome == Outcome::Failed(f)
            },
        }
    }

    /// Whether the session is waiting for this kind of event.
    pub open spec fn awaits_spec(self, ev: Event) -> bool {
        match self.phase {
            Phase::Entering => ev is ModeEntered || ev is EnterFailed,
            Phase::Drawing => ev is FrameDrawn || ev is DrawFailed,
            Phase::Polling => ev is NoInput || ev is Input || ev is PollFailed,
            Phase::Quitting => ev is ModeRestored || ev is RestoreFailed,
            Phase::Finished => false,
        }
    }

    /// The action that the session is waiting on in its current phase.
    pub open spec fn pending_action(self) -> Action {
        match self.phase {
            Phase::Entering => Action::EnterMode,
            Phase::Drawing => Action::DrawFrame,
            Phase::Polling => Action::PollInput { timeout_ms: POLL_TIMEOUT_MS },
            Phase::Quitting => Action::RestoreMode,
            Phase::Finished => Action::Finish(self.outcome),
        }
    }

    /// The state after the loop ends, with restoration of the terminal asked for.
    pub open spec fn quitting(self, fault: Option<Fault>) -> Session {
        Session {
            phase: Phase::Quitting,
            should_quit: fault is None,
            restorations: 1,
            fault,
            ..self
        }
    }

    /// The finished state with the given outcome.
    pub open spec fn finished(self, outcome: Outcome) -> Session {
        Session { phase: Phase::Finished, outcome, ..self }
    }

    /// One transition: the next state, and the action that goes with it. An
    /// event the session is not waiting for changes nothing, and the pending
    /// action is asked for again.
    pub open spec fn next(self, ev: Event) -> Session {
        if !self.awaits_spec(ev) {
            self
        } else {
            match ev {
                Event::ModeEntered => Session { phase: Phase::Drawing, entered: true, ..self },
                Event::EnterFailed => self.finished(Outcome::Failed(Fault::Enter)),
                Event::FrameDrawn => Session { phase: Phase::Polling, ..self },
                Event::DrawFailed => self.quitting(Some(Fault::Draw)),
                Event::NoInput => Session { phase: Phase::Drawing, ..self },
                Event::Input(input) => if requests_quit(input) {
                    self.quitting(None)
                } else {
                    Session { phase: Phase::Drawing, ..self }
                },
                Event::PollFailed => self.quitting(Some(Fault::Poll)),
                Event::ModeRestored => match self.fault {
                    Some(f) => self.finished(Outcome::Failed(f)),
                    None => self.finished(Outcome::Completed),
                },
                Event::RestoreFailed => match self.fault {
                    Some(f) => self.finished(Outcome::Failed(f)),
                    None => self.finished(Outcome::Failed(Fault::Restore)),
                },
            }
        }
    }

    /// The state after a sequence of events.
    pub open spec fn run(self, evs: Seq<Event>) -> Session
        decreases evs.len(),
    {
        if evs.len() == 0 {
            self
        } else {
            self.next(evs[0]).run(evs.drop_first())
        }
    }

    /// Whether each event of the sequence answers the action the session was
    /// then waiting on.
    pub open spec fn follows(self, evs: Seq<Event>) -> bool
        decreases evs.len(),
    {
        evs.len() == 0 || (self.awaits_spec(evs[0]) && self.next(evs[0]).follows(evs.drop_first()))
    }

    /// How many times the session asks for `action` while it takes the events
    /// of the sequence (the action pending before the first event not counted).
    pub open spec fn requests(self, evs: Seq<Event>, action: Action) -> nat
        decreases evs.len(),
    {
        if evs.len() == 0 {
            0
        } else {
            (if self.next(evs[0]).pending_action() == action {
                1nat
            } else {
                0nat
            }) + self.next(evs[0]).requests(evs.drop_first(), action)
        }
    }

    /// The state in which every session begins.
    pub open spec fn initial() -> Session {
        Session {
            phase: Phase::Entering,
            should_quit: false,
            entered: false,
            restorations: 0,
            fault: None,
            outcome: Outcome::Completed,
        }
    }

    /// Begins a session: the caller is first to enter raw, alternate-screen mode.
    pub fn start() -> (r: (Session, Action))
        ensures
            r.0 == Session::initial(),
            r.0.wf(),
            r.1 == Action::EnterMode,
    {
        let s = Session {
            phase: Phase::Entering,
            should_quit: false,
            entered: false,
            restorations: 0,
            fault: None,
            outcome: Outcome::Completed,
        };
        (s, Action::EnterMode)
    }

    /// Whether the session is waiting for this kind of event.
    pub fn awaits(&self, ev: &Event) -> (r: bool)
        ensures
            r == self.awaits_spec(*ev),
    {
        match self.phase {
            Phase::Entering => matches!(ev, Event::ModeEntered | Event::EnterFailed),
            Phase::Drawing => matches!(ev, Event::FrameDrawn | Event::DrawFailed),
            Phase::Polling => matches!(ev, Event::NoInput | Event::Input(_) | Event::PollFailed),
            Phase::Quitting => matches!(ev, Event::ModeRestored | Event::RestoreFailed),
            Phase::Finished => false,
        }
    }

    /// Whether the session has ended.
    pub fn is_finished(&self) -> (r: bool)
        ensures
            r == (self.phase == Phase::Finished),
    {
        matches!(self.phase, Phase::Finished)
    }

    /// Takes the outcome of the last action and returns the next one.
    pub fn step(&mut self, ev: Event) -> (r: Action)
        requires
            old(self).wf(),
        ensures
            *final(self) == old(self).next(ev),
            final(self).wf(),
            r == final(self).pending_action(),
    {
        if !self.awaits(&ev) {
            return self.action();
        }
        match ev {
            Event::ModeEntered => {
                self.entered = true;
                self.phase = Phase::Drawing;
            },
            Event::EnterFailed => {
                self.outcome = Outcome::Failed(Fault::Enter);
                self.phase = Phase::Finished;
            },
            Event::FrameDrawn => {
                self.phase = Phase::Polling;
            },
            Event::DrawFailed => {
                self.begin_restore(Some(Fault::Draw));
            },
            Event::NoInput => {
                self.phase = Phase::Drawing;
            },
            Event::Input(input) => {
                match event_command(input) {
                    KeyCommand::Quit => self.begin_restore(None),
                    KeyCommand::Help | KeyCommand::Ignore => {
                        self.phase = Phase::Drawing;
                    },
                }
            },
            Event::PollFailed => {
                self.begin_restore(Some(Fault::Poll));
            },
            Event::ModeRestored => {
                self.outcome = match self.fault {
                    Some(f) => Outcome::Failed(f),
                    None => Outcome::Completed,
                };
                self.phase = Phase::Finished;
            },
            Event::RestoreFailed => {
                self.outcome = match self.fault {
                    Some(f) => Outcome::Failed(f),
                    None => Outcome::Failed(Fault::Restore),
                };
                self.phase = Phase::Finished;
            },
        }
        self.action()
    }

    fn begin_restore(&mut self, fault: Option<Fault>)
        requires
            old(self).phase == Phase::Drawing || old(self).phase == Phase::Polling,
            old(self).wf(),
        ensures
            *final(self) == old(self).quitting(fault),
    {
        self.phase = Phase::Quitting;
        self.should_quit = fault.is_none();
        self.restorations = 1;
        self.fault = fault;
    }

    /// The action the session is waiting on.
    pub fn action(&self) -> (r: Action)
        ensures
            r == self.pending_action(),
    {
        match self.phase {
            Phase::Entering => Action::EnterMode,
            Phase::Drawing => Action::DrawFrame,
            Phase::Polling => Action::PollInput { timeout_ms: POLL_TIMEOUT_MS },
            Phase::Quitting => Action::RestoreMode,
            Phase::Finished => Action::Finish(self.outcome),
        }
    }
}

/// Every transition keeps the session invariant.
pub proof fn lemma_next_wf(s: Session, ev: Event)
    requires
        s.wf(),
    ensures
        s.next(ev).wf(),
{
}

/// Every sequence of transitions keeps the session invariant.
pub proof fn lemma_run_wf(s: Session, evs: Seq<Event>)
    requires
        s.wf(),
    ensures
        s.run(evs).wf(),
    decreases evs.len(),
{
    if evs.len() > 0 {
        lemma_next_wf(s, evs[0]);
        lemma_run_wf(s.next(evs[0]), evs.drop_first());
    }
}

/// Whatever the terminal reports, from the start of a session: restoration of
/// the terminal mode is asked for at most once, and when the session finishes
/// it has been asked for exactly once if the mode was entered (whether the loop
/// ended by a quit key, a failed draw or a failed poll), and never otherwise.
pub proof fn restoration_exactly_once(evs: Seq<Event>)
    ensures
        ({
            let end = Session::initial().run(evs);
            &&& end.restorations <= 1
            &&& end.phase == Phase::Finished ==> (end.restorations == 1 <==> end.entered)
        }),
{
    lemma_run_wf(Session::initial(), evs);
}

proof fn lemma_restore_count(s: Session, evs: Seq<Event>)
    requires
        s.wf(),
        s.follows(evs),
    ensures
        s.restorations + s.requests(evs, Action::RestoreMode) == s.run(evs).restorations,
    decreases evs.len(),
{
    if evs.len() > 0 {
        lemma_next_wf(s, evs[0]);
        lemma_restore_count(s.next(evs[0]), evs.drop_first());
    }
}

/// A session driven by a caller that answers each action it is asked for,
/// from the start and whatever the answers: the restoration of the terminal
/// mode is asked for at most once, and by the time the session finishes it
/// has been asked for exactly once if the mode was entered, never otherwise.
/// A session whose loop ended on a failed draw or poll returns that failure,
/// whatever the restoration reported.
pub proof fn restore_asked_exactly_once(evs: Seq<Event>)
    requires
        Session::initial().follows(evs),
    ensures
        ({
            let asked = Session::initial().requests(evs, Action::RestoreMode);
            let end = Session::initial().run(evs);
            &&& asked <= 1
            &&& end.phase == Phase::Finished ==> asked == (if end.entered { 1nat } else { 0nat })
            &&& end.phase == Phase::Finished ==> (end.fault matches Some(f) ==> end.outcome
                == Outcome::Failed(f))
        }),
{
    lemma_run_wf(Session::initial(), evs);
    lemma_restore_count(Session::initial(), evs);
}

/// Once the loop is over, the only thing left before the session finishes is
/// the restoration of the terminal mode: no frame is drawn and no input polled.
pub proof fn quitting_only_restores(s: Session, ev: Event)
    requires
        s.wf(),
        s.phase == Phase::Quitting,
    ensures
        s.next(ev).phase == Phase::Quitting || s.next(ev).phase == Phase::Finished,
        s.next(ev).phase == Phase::Quitting ==> s.next(ev).pending_action() == Action::RestoreMode,
        s.next(ev).restorations == 1,
{
}

/// Pressing `q` or Escape while polling sets `should_quit`, and the next action
/// is the restoration of the terminal: the loop ends without another frame.
pub proof fn quit_key_ends_loop(s: Session, code: KeyCode)
    requires
        s.wf(),
        s.phase == Phase::Polling,
        code == KeyCode::Char('q') || code == KeyCode::Esc,
    ensures
        s.next(Event::Input(InputEvent::Key { code, kind: KeyEventKind::Press })).should_quit,
        s.next(Event::Input(InputEvent::Key { code, kind: KeyEventKind::Press })).phase
            == Phase::Quitting,
        s.next(
            Event::Input(InputEvent::Key { code, kind: KeyEventKind::Press }),
        ).pending_action() == Action::RestoreMode,
{
}

/// Any key other than `q` and Escape, pressed, released or repeated, and any
/// event that is not a key, leaves `should_quit` false and the loop going on to
/// the next frame; so does a key release or repeat of `q` or Escape.
pub proof fn other_keys_are_neutral(s: Session, input: InputEvent)
    requires
        s.wf(),
        s.phase == Phase::Polling,
        match input {
            InputEvent::Key { code, kind } => kind != KeyEventKind::Press || !(code
                == KeyCode::Char('q') || code == KeyCode::Esc),
            InputEvent::Other => true,
        },
    ensures
        !s.next(Event::Input(input)).should_quit,
        s.next(Event::Input(input)).phase == Phase::Drawing,
        s.next(Event::Input(input)).pending_action() == Action::DrawFrame,
{
}

/// Each loop iteration draws one frame and then polls for input for at most
/// the fixed timeout; a poll that times out leads straight to the next frame.
pub proof fn poll_is_bounded(s: Session)
    requires
        s.wf(),
        s.phase == Phase::Drawing,
    ensures
        s.next(Event::FrameDrawn).pending_action() == (Action::PollInput {
            timeout_ms: POLL_TIMEOUT_MS,
        }),
        s.next(Event::FrameDrawn).next(Event::NoInput) == s,
        POLL_TIMEOUT_MS == 50,
{
}

/// The event that reports a poll: a timeout, or the input that was read.
pub open spec fn poll_event(input: Option<InputEvent>) -> Event {
    match input {
        None => Event::NoInput,
        Some(i) => Event::Input(i),
    }
}

/// The events of loop iterations that each draw a frame and then poll, one
/// iteration per poll result.
pub open spec fn iterations(polls: Seq<Option<InputEvent>>) -> Seq<Event>
    decreases polls.len(),
{
    if polls.len() == 0 {
        Seq::empty()
    } else {
        seq![Event::FrameDrawn, poll_event(polls[0])] + iterations(polls.drop_first())
    }
}

/// A poll result that does not ask to quit: a timeout, a key other than `q`
/// and Escape, a release or repeat, or an event that is not a key.
pub open spec fn is_neutral(input: Option<InputEvent>) -> bool {
    match input {
        None => true,
        Some(i) => !requests_quit(i),
    }
}

proof fn lemma_run_concat(s: Session, a: Seq<Event>, b: Seq<Event>, action: Action)
    ensures
        s.run(a + b) == s.run(a).run(b),
        s.follows(a + b) == (s.follows(a) && s.run(a).follows(b)),
        s.requests(a + b, action) == s.requests(a, action) + s.run(a).requests(b, action),
    decreases a.len(),
{
    if a.len() == 0 {
        assert(a + b =~= b);
    } else {
        assert((a + b).drop_first() =~= a.drop_first() + b);
        lemma_run_concat(s.next(a[0]), a.drop_first(), b, action);
    }
}

proof fn lemma_one_iteration(s: Session, input: Option<InputEvent>, action: Action)
    requires
        s.wf(),
        s.phase == Phase::Drawing,
    ensures
        ({
            let evs = seq![Event::FrameDrawn, poll_event(input)];
            let polled = s.next(Event::FrameDrawn);
            &&& s.follows(evs)
            &&& s.run(evs) == polled.next(poll_event(input))
            &&& s.requests(evs, action) == (if polled.pending_action() == action {
                1nat
            } else {
                0nat
            }) + (if polled.next(poll_event(input)).pending_action() == action {
                1nat
            } else {
                0nat
            })
        }),
{
    let evs = seq![Event::FrameDrawn, poll_event(input)];
    let polled = s.next(Event::FrameDrawn);
    let after = polled.next(poll_event(input));
    let tail = evs.drop_first();
    assert(tail =~= seq![poll_event(input)]);
    assert(tail.drop_first() =~= Seq::<Event>::empty());
    assert(polled.awaits_spec(poll_event(input)));
    assert(after.follows(tail.drop_first()));
    assert(after.run(tail.drop_first()) == after);
    assert(after.requests(tail.drop_first(), action) == 0);
    assert(polled.follows(tail));
    assert(polled.run(tail) == after);
    assert(polled.requests(tail, action) == (if after.pending_action() == action {
        1nat
    } else {
        0nat
    }));
    assert(s.follows(evs));
    assert(s.run(evs) == after);
}

/// Loop iterations whose polls bring nothing that asks to quit leave the
/// session as it was: `should_quit` stays false, nothing is restored, and each
/// iteration asks for one frame and one poll of the fixed timeout.
pub proof fn neutral_iterations_keep_running(s: Session, polls: Seq<Option<InputEvent>>)
    requires
        s.wf(),
        s.phase == Phase::Drawing,
        forall|i: int| 0 <= i < polls.len() ==> #[trigger] is_neutral(polls[i]),
    ensures
        s.follows(iterations(polls)),
        s.run(iterations(polls)) == s,
        s.requests(iterations(polls), Action::DrawFrame) == polls.len(),
        s.requests(iterations(polls), Action::PollInput { timeout_ms: POLL_TIMEOUT_MS })
            == polls.len(),
        s.requests(iterations(polls), Action::RestoreMode) == 0,
    decreases polls.len(),
{
    if polls.len() > 0 {
        let head = seq![Event::FrameDrawn, poll_event(polls[0])];
        let rest = polls.drop_first();
        assert(is_neutral(polls[0]));
        assert forall|i: int| 0 <= i < rest.len() implies #[trigger] is_neutral(rest[i]) by {
            assert(is_neutral(polls[i + 1]));
        }
        lemma_one_iteration(s, polls[0], Action::DrawFrame);
        lemma_one_iteration(s, polls[0], Action::PollInput { timeout_ms: POLL_TIMEOUT_MS });
        lemma_one_iteration(s, polls[0], Action::RestoreMode);
        neutral_iterations_keep_running(s, rest);
        lemma_run_concat(s, head, iterations(rest), Action::DrawFrame);
        lemma_run_concat(s, head, iterations(rest), Action::PollInput { timeout_ms: POLL_TIMEOUT_MS });
        lemma_run_concat(s, head, iterations(rest), Action::RestoreMode);
    }
}

/// After any number of iterations with nothing that asks to quit, an
/// iteration whose poll reads a press of `q` or Escape ends the loop: it sets
/// `should_quit`, and the next action is the one restoration of the terminal.
/// Over the `k + 1` iterations, `k + 1` polls are asked for and `k` frames
/// beyond the one pending at the start, so no frame follows the quit.
pub proof fn quit_ends_loop_after_iterations(
    s: Session,
    polls: Seq<Option<InputEvent>>,
    code: KeyCode,
)
    requires
        s.wf(),
        s.phase == Phase::Drawing,
        forall|i: int| 0 <= i < polls.len() ==> #[trigger] is_neutral(polls[i]),
        code == KeyCode::Char('q') || code == KeyCode::Esc,
    ensures
        ({
            let quit = Some(InputEvent::Key { code, kind: KeyEventKind::Press });
            let evs = iterations(polls.push(quit));
            let end = s.run(evs);
            &&& s.follows(evs)
            &&& end.should_quit
            &&& end.phase == Phase::Quitting
            &&& end.pending_action() == Action::RestoreMode
            &&& s.requests(evs, Action::DrawFrame) == polls.len()
            &&& s.requests(evs, Action::PollInput { timeout_ms: POLL_TIMEOUT_MS }) == polls.len() + 1
            &&& s.requests(evs, Action::RestoreMode) == 1
        }),
{
    let quit = Some(InputEvent::Key { code, kind: KeyEventKind::Press });
    let last = seq![Event::FrameDrawn, poll_event(quit)];
    lemma_iterations_push(polls, quit);
    neutral_iterations_keep_running(s, polls);
    lemma_one_iteration(s, quit, Action::DrawFrame);
    lemma_one_iteration(s, quit, Action::PollInput { timeout_ms: POLL_TIMEOUT_MS });
    lemma_one_iteration(s, quit, Action::RestoreMode);
    lemma_run_concat(s, iterations(polls), last, Action::DrawFrame);
    lemma_run_concat(s, iterations(polls), last, Action::PollInput { timeout_ms: POLL_TIMEOUT_MS });
    lemma_run_concat(s, iterations(polls), last, Action::RestoreMode);
}

proof fn lemma_iterations_push(polls: Seq<Option<InputEvent>>, x: Option<InputEvent>)
    ensures
        iterations(polls.push(x)) == iterations(polls) + seq![Event::FrameDrawn, poll_event(x)],
    decreases polls.len(),
{
    if polls.len() == 0 {
        assert(polls.push(x).drop_first() =~= Seq::<Option<InputEvent>>::empty());
        assert(iterations(polls.push(x).drop_first()) =~= Seq::<Event>::empty());
        assert(iterations(polls) =~= Seq::<Event>::empty());
        assert(iterations(polls.push(x)) =~= seq![Event::FrameDrawn, poll_event(x)]
            + Seq::<Event>::empty());
        assert(iterations(polls) + seq![Event::FrameDrawn, poll_event(x)] =~= seq![Event::FrameDrawn, poll_event(x)]);
    } else {
        assert(polls.push(x).drop_first() =~= polls.drop_first().push(x));
        lemma_iterations_push(polls.drop_first(), x);
        assert(iterations(polls.push(x)) =~= iterations(polls) + seq![Event::FrameDrawn, poll_event(x)]);
    }
}

} // verus!
