//! The background text injector: minimize the caller's own window, wait a
//! fixed delay for the window manager to move focus to the next window, then
//! type the given text into whichever window then holds focus.
//!
//! The crate decides the order of those steps; the host performs each one and
//! reports its outcome back as an [`Event`]. An [`Injector`] is a small state
//! machine over that exchange. Its contract pins the whole transition
//! relation, and the lemmas at the end state the two ordering guarantees of
//! the design: the minimize attempt comes before the delay ever starts, and
//! the keystroke emission comes only after the delay has elapsed.
//!
//! Every outcome that the host reports — a refused minimize, a failed
//! initialization of the input facility, a failed emission — is swallowed:
//! no phase reports an error, the run only moves on or finishes.

use vstd::prelude::*;

verus! {

/// Milliseconds the background unit waits after the minimize attempt, a
/// best-effort allowance for the window manager to finish the focus change.
/// The wait is a fixed sleep, not synchronized with any focus event.
pub const FOCUS_DELAY_MS: u64 = 150;

/// Where one injection run stands.
#[derive(Clone, Copy, PartialEq, Eq, Structural, Debug)]
pub enum Phase {
    /// The foreground step: the caller's own window is to be minimized.
    MinimizePending,
    /// Minimize attempted; the background unit must now wait the fixed delay.
    DelayPending,
    /// The delay elapsed; the synthetic-input facility must be initialized.
    InitPending,
    /// The facility is ready; the text is to be emitted as keystrokes.
    EmitPending,
    /// The run is over: the text was emitted, or the facility was
    /// unavailable and the run was abandoned silently.
    Finished,
}

/// What the host reports after performing an action. The two fallible steps
/// whose result the design discards (the minimize and the emission) report a
/// single "attempted" event, success or not; only the facility
/// initialization distinguishes its outcomes, because an unavailable
/// facility abandons the run.
#[derive(Clone, Copy, PartialEq, Eq, Structural, Debug)]
pub enum Event {
    /// The minimize request was made; whether the window obeyed is discarded.
    MinimizeAttempted,
    /// The fixed delay has elapsed.
    DelayElapsed,
    /// The synthetic-input facility initialized with default settings.
    InputReady,
    /// The facility could not initialize (for instance, missing input
    /// permissions); the run is to be abandoned silently.
    InputUnavailable,
    /// The keystroke emission was attempted; its result is discarded.
    EmitAttempted,
}

/// The work the host must perform next for one injection run.
#[derive(Clone, Copy, PartialEq, Eq, Structural, Debug)]
pub enum Action {
    /// Ask the window system to minimize the caller's own window,
    /// best-effort, on the calling thread.
    RequestMinimize,
    /// Sleep the given number of milliseconds, in the background unit.
    WaitMillis(u64),
    /// Initialize the synthetic-input facility with default settings.
    InitInput,
    /// Emit the run's text as synthesized keystrokes to the focused window.
    /// A zero-length text emits nothing and is not an error.
    EmitText,
    /// Nothing is left to do.
    Done,
}

/// The transition relation of one run: which phase follows `p` when the host
/// reports `ev`. An event out of turn changes nothing.
pub open spec fn next_phase(p: Phase, ev: Event) -> Phase {
    match (p, ev) {
        (Phase::MinimizePending, Event::MinimizeAttempted) => Phase::DelayPending,
        (Phase::DelayPending, Event::DelayElapsed) => Phase::InitPending,
        (Phase::InitPending, Event::InputReady) => Phase::EmitPending,
        (Phase::InitPending, Event::InputUnavailable) => Phase::Finished,
        (Phase::EmitPending, Event::EmitAttempted) => Phase::Finished,
        _ => p,
    }
}

/// The phase a run reaches from `p` after the whole event sequence `evs`.
pub open spec fn run_phase(p: Phase, evs: Seq<Event>) -> Phase
    decreases evs.len(),
{
    if evs.len() == 0 {
        p
    } else {
        next_phase(run_phase(p, evs.drop_last()), evs.last())
    }
}

/// The action owed in phase `p`. Each phase owes exactly one, so the order
/// of the actions is the order of the phases.
pub open spec fn phase_action(p: Phase) -> Action {
    match p {
        Phase::MinimizePending => Action::RequestMinimize,
        Phase::DelayPending => Action::WaitMillis(FOCUS_DELAY_MS),
        Phase::InitPending => Action::InitInput,
        Phase::EmitPending => Action::EmitText,
        Phase::Finished => Action::Done,
    }
}

/// True of the phases a run can only hold once the fixed delay has elapsed.
pub open spec fn past_delay(p: Phase) -> bool {
    p is InitPending || p is EmitPending || p is Finished
}

/// Appending one event to a run's history steps the run exactly once.
pub proof fn lemma_run_phase_push(p: Phase, evs: Seq<Event>, ev: Event)
    ensures
        run_phase(p, evs.push(ev)) == next_phase(run_phase(p, evs), ev),
{
    assert(evs.push(ev).drop_last() =~= evs);
}

/// One injection run: the text to type, fixed at creation, the phase the run
/// stands in, and the events it has taken so far. Each invocation of the
/// injector owns a fresh run; runs share nothing and never observe one
/// another.
pub struct Injector {
    text: String,
    phase: Phase,
    history: Ghost<Seq<Event>>,
}

impl Injector {
    /// The characters this run will emit, exactly as the caller gave them.
    pub closed spec fn text_view(&self) -> Seq<char> {
        self.text@
    }

    /// The phase this run stands in.
    pub closed spec fn phase_spec(&self) -> Phase {
        self.phase
    }

    /// The events this run has taken so far, oldest first.
    pub closed spec fn history_spec(&self) -> Seq<Event> {
        self.history@
    }

    /// A run's phase is exactly what the transition relation gives for its
    /// history: the machine moves only by taking events.
    pub closed spec fn wf(&self) -> bool {
        self.phase == run_phase(Phase::MinimizePending, self.history@)
    }

    /// Start a run for any text, including the empty one: no input is
    /// rejected, and the text is carried unchanged.
    pub fn new(text: String) -> (s: Self)
        ensures
            s.wf(),
            s.phase_spec() == Phase::MinimizePending,
            s.text_view() == text@,
            s.history_spec() == Seq::<Event>::empty(),
    {
        Injector { text, phase: Phase::MinimizePending, history: Ghost(Seq::empty()) }
    }

    /// The phase, for the host's loop.
    pub fn phase(&self) -> (p: Phase)
        ensures
            p == self.phase_spec(),
    {
        self.phase
    }

    /// The text to emit, unchanged from creation.
    pub fn text(&self) -> (t: &String)
        ensures
            t@ == self.text_view(),
    {
        &self.text
    }

    /// The action the host owes this run next.
    pub fn next_action(&self) -> (a: Action)
        ensures
            a == phase_action(self.phase_spec()),
    {
        match self.phase {
            Phase::MinimizePending => Action::RequestMinimize,
            Phase::DelayPending => Action::WaitMillis(FOCUS_DELAY_MS),
            Phase::InitPending => Action::InitInput,
            Phase::EmitPending => Action::EmitText,
            Phase::Finished => Action::Done,
        }
    }

    /// Take the host's report and move to the next phase. The text never
    /// changes, the event joins the history, and the new phase is exactly
    /// what the transition relation gives: no report is an error, whatever
    /// it says.
    pub fn step(&mut self, ev: Event)
        ensures
            final(self).phase_spec() == next_phase(old(self).phase_spec(), ev),
            final(self).text_view() == old(self).text_view(),
            final(self).history_spec() == old(self).history_spec().push(ev),
            old(self).wf() ==> final(self).wf(),
    {
        self.phase = match (self.phase, ev) {
            (Phase::MinimizePending, Event::MinimizeAttempted) => Phase::DelayPending,
            (Phase::DelayPending, Event::DelayElapsed) => Phase::InitPending,
            (Phase::InitPending, Event::InputReady) => Phase::EmitPending,
            (Phase::InitPending, Event::InputUnavailable) => Phase::Finished,
            (Phase::EmitPending, Event::EmitAttempted) => Phase::Finished,
            (p, _) => p,
        };
        proof {
            self.history@ = self.history@.push(ev);
            lemma_run_phase_push(Phase::MinimizePending, old(self).history@, ev);
        }
    }
}

/// The minimize attempt comes first: a run that has left its initial phase
/// saw a minimize attempt, and saw it while still in the initial phase —
/// before the machine ever owed the wait, so before the delay began. This
/// holds whether or not the minimize itself succeeded: the event reports
/// only the attempt.
pub proof fn lemma_minimize_attempt_comes_first(evs: Seq<Event>)
    ensures
        run_phase(Phase::MinimizePending, evs) != Phase::MinimizePending ==> exists|i: int|
            0 <= i < evs.len() && #[trigger] evs[i] == Event::MinimizeAttempted && run_phase(
                Phase::MinimizePending,
                evs.take(i),
            ) == Phase::MinimizePending,
    decreases evs.len(),
{
    if evs.len() > 0 && run_phase(Phase::MinimizePending, evs) != Phase::MinimizePending {
        let prefix = evs.drop_last();
        lemma_minimize_attempt_comes_first(prefix);
        if run_phase(Phase::MinimizePending, prefix) == Phase::MinimizePending {
            let i = evs.len() - 1;
            assert(evs.take(i) =~= prefix);
            assert(evs[i] == Event::MinimizeAttempted);
        } else {
            let i = choose|i: int|
                0 <= i < prefix.len() && #[trigger] prefix[i] == Event::MinimizeAttempted
                    && run_phase(Phase::MinimizePending, prefix.take(i)) == Phase::MinimizePending;
            assert(evs.take(i) =~= prefix.take(i));
            assert(evs[i] == Event::MinimizeAttempted);
        }
    }
}

/// The emission waits for the delay: a run that stands past the delay saw
/// the delay elapse, and saw it in the phase that owes the wait. Since the
/// emission is owed only in a phase past the delay, no run emits before the
/// fixed delay has elapsed.
pub proof fn lemma_emission_waits_for_delay(evs: Seq<Event>)
    ensures
        past_delay(run_phase(Phase::MinimizePending, evs)) ==> exists|j: int|
            0 <= j < evs.len() && #[trigger] evs[j] == Event::DelayElapsed && run_phase(
                Phase::MinimizePending,
                evs.take(j),
            ) == Phase::DelayPending,
    decreases evs.len(),
{
    if evs.len() > 0 && past_delay(run_phase(Phase::MinimizePending, evs)) {
        let prefix = evs.drop_last();
        lemma_emission_waits_for_delay(prefix);
        if !past_delay(run_phase(Phase::MinimizePending, prefix)) {
            let j = evs.len() - 1;
            assert(evs.take(j) =~= prefix);
            assert(evs[j] == Event::DelayElapsed);
        } else {
            let j = choose|j: int|
                0 <= j < prefix.len() && #[trigger] prefix[j] == Event::DelayElapsed && run_phase(
                    Phase::MinimizePending,
                    prefix.take(j),
                ) == Phase::DelayPending;
            assert(evs.take(j) =~= prefix.take(j));
            assert(evs[j] == Event::DelayElapsed);
        }
    }
}

/// The two guarantees together, as one ordering statement: a run that stands
/// past the delay saw a minimize attempt strictly before the delay elapsed.
pub proof fn lemma_minimize_before_delay_before_emission(evs: Seq<Event>)
    ensures
        past_delay(run_phase(Phase::MinimizePending, evs)) ==> exists|i: int, j: int|
            0 <= i < j < evs.len() && #[trigger] evs[i] == Event::MinimizeAttempted
                && #[trigger] evs[j] == Event::DelayElapsed,
{
    if past_delay(run_phase(Phase::MinimizePending, evs)) {
        lemma_emission_waits_for_delay(evs);
        let j = choose|j: int|
            0 <= j < evs.len() && #[trigger] evs[j] == Event::DelayElapsed && run_phase(
                Phase::MinimizePending,
                evs.take(j),
            ) == Phase::DelayPending;
        lemma_minimize_attempt_comes_first(evs.take(j));
        let i = choose|i: int|
            0 <= i < evs.take(j).len() && #[trigger] evs.take(j)[i] == Event::MinimizeAttempted
                && run_phase(Phase::MinimizePending, evs.take(j).take(i)) == Phase::MinimizePending;
        assert(evs[i] == Event::MinimizeAttempted);
        assert(evs[j] == Event::DelayElapsed);
    }
}

/// The first guarantee, at the machine itself: an injector that has left its
/// initial phase took the minimize attempt while still in that phase — so
/// before it ever owed the wait, whatever the attempt came to.
pub proof fn lemma_injector_minimized_first(inj: &Injector)
    requires
        inj.wf(),
        inj.phase_spec() != Phase::MinimizePending,
    ensures
        exists|i: int|
            0 <= i < inj.history_spec().len() && #[trigger] inj.history_spec()[i]
                == Event::MinimizeAttempted && run_phase(
                Phase::MinimizePending,
                inj.history_spec().take(i),
            ) == Phase::MinimizePending,
{
    lemma_minimize_attempt_comes_first(inj.history_spec());
}

/// The second guarantee, at the machine itself: an injector that owes the
/// emission saw the fixed delay elapse, in the phase that owes the wait.
pub proof fn lemma_injector_emits_after_delay(inj: &Injector)
    requires
        inj.wf(),
        phase_action(inj.phase_spec()) == Action::EmitText,
    ensures
        exists|j: int|
            0 <= j < inj.history_spec().len() && #[trigger] inj.history_spec()[j]
                == Event::DelayElapsed && run_phase(
                Phase::MinimizePending,
                inj.history_spec().take(j),
            ) == Phase::DelayPending,
{
    assert(inj.phase_spec() == Phase::EmitPending);
    lemma_emission_waits_for_delay(inj.history_spec());
}

} // verus!
