//! Following the phases of one instance, event by event, to the outcome of
//! its run.

use vstd::prelude::*;
use vstd::string::StringExecFns;
use crate::outcome::VmiOutcome;

verus! {

/// The phase that is taken as seen before any event has come.
pub const INITIAL_PHASE: &'static str = "Unknown";

/// The status that an instance reports of itself.
#[derive(Debug, Clone)]
pub struct VirtualMachineInstanceStatus {
    pub phase: String,
}

impl Default for VirtualMachineInstanceStatus {
    fn default() -> (r: VirtualMachineInstanceStatus)
        ensures
            r.phase@ == INITIAL_PHASE@,
    {
        VirtualMachineInstanceStatus { phase: String::from_str(INITIAL_PHASE) }
    }
}

/// What one event shows of the instance: its status, if it has one yet.
#[derive(Debug, Clone)]
pub struct InstanceSnapshot {
    pub status: Option<VirtualMachineInstanceStatus>,
}

/// One event of the watch on the instance.
#[derive(Debug, Clone)]
pub enum WatchEvent {
    /// The instance was created or changed.
    Updated(InstanceSnapshot),
    /// The instance is gone.
    Removed,
    /// The watch has ended.
    StreamEnded,
}

pub enum WatchEventView {
    /// The phase of the status, where there is a status.
    Updated(Option<Seq<char>>),
    Removed,
    StreamEnded,
}

impl View for InstanceSnapshot {
    type V = Option<Seq<char>>;

    open spec fn view(&self) -> Option<Seq<char>> {
        match self.status {
            Some(status) => Some(status.phase@),
            None => None,
        }
    }
}

impl View for WatchEvent {
    type V = WatchEventView;

    open spec fn view(&self) -> WatchEventView {
        match self {
            WatchEvent::Updated(snapshot) => WatchEventView::Updated(snapshot@),
            WatchEvent::Removed => WatchEventView::Removed,
            WatchEvent::StreamEnded => WatchEventView::StreamEnded,
        }
    }
}

/// The views of a list of events, in its order.
pub open spec fn event_views(events: Seq<WatchEvent>) -> Seq<WatchEventView> {
    events.map_values(|e: WatchEvent| e@)
}

/// What one event led to.
#[derive(Debug, Clone, Copy, PartialEq, Eq, Structural)]
pub struct Observation {
    /// The phase differs from the one seen last: a transition to report.
    pub transitioned: bool,
    /// The run has ended with this outcome, and no further event is taken.
    pub outcome: Option<VmiOutcome>,
}

/// The outcome that a phase stands for, if it ends the run.
pub open spec fn terminal_outcome(phase: Seq<char>) -> Option<VmiOutcome> {
    if phase == "Succeeded"@ {
        Some(VmiOutcome::Succeeded)
    } else if phase == "Failed"@ {
        Some(VmiOutcome::Failed)
    } else {
        None
    }
}

/// The phase seen last after an event, given the one seen last before it.
pub open spec fn phase_after(last: Seq<char>, event: WatchEventView) -> Seq<char> {
    match event {
        WatchEventView::Updated(Some(phase)) => phase,
        _ => last,
    }
}

/// What an event leads to, given the phase seen last before it. Only a
/// phase that differs from the one seen last is a transition, and only a
/// transition can end the run with the outcome of its phase. A removal ends
/// it as deleted, the end of the watch as interrupted.
pub open spec fn observation(last: Seq<char>, event: WatchEventView) -> Observation {
    match event {
        WatchEventView::Updated(Some(phase)) => if phase != last {
            Observation { transitioned: true, outcome: terminal_outcome(phase) }
        } else {
            Observation { transitioned: false, outcome: None }
        },
        WatchEventView::Updated(None) => Observation { transitioned: false, outcome: None },
        WatchEventView::Removed => Observation {
            transitioned: false,
            outcome: Some(VmiOutcome::Deleted),
        },
        WatchEventView::StreamEnded => Observation {
            transitioned: false,
            outcome: Some(VmiOutcome::WatchInterrupted),
        },
    }
}

/// The state of the reduction: the phase seen last, nothing more.
#[derive(Debug, Clone)]
pub struct PhaseTracker {
    pub last_phase: String,
}

impl View for PhaseTracker {
    type V = Seq<char>;

    open spec fn view(&self) -> Seq<char> {
        self.last_phase@
    }
}

fn same(text: &String, literal: &str) -> (r: bool)
    ensures
        r == (text@ == literal@),
{
    let other = String::from_str(literal);
    *text == other
}

/// Tells which outcome a phase stands for, if any.
pub fn outcome_of_phase(phase: &String) -> (r: Option<VmiOutcome>)
    ensures
        r == terminal_outcome(phase@),
{
    if same(phase, "Succeeded") {
        Some(VmiOutcome::Succeeded)
    } else if same(phase, "Failed") {
        Some(VmiOutcome::Failed)
    } else {
        None
    }
}

impl PhaseTracker {
    /// A tracker that has seen nothing yet.
    pub fn new() -> (r: PhaseTracker)
        ensures
            r@ == INITIAL_PHASE@,
    {
        PhaseTracker { last_phase: String::from_str(INITIAL_PHASE) }
    }

    /// Takes one event.
    pub fn observe(&mut self, event: &WatchEvent) -> (r: Observation)
        ensures
            r == observation(old(self)@, event@),
            final(self)@ == phase_after(old(self)@, event@),
    {
        match event {
            WatchEvent::Updated(snapshot) => match &snapshot.status {
                Some(status) => {
                    if status.phase == self.last_phase {
                        Observation { transitioned: false, outcome: None }
                    } else {
                        let outcome = outcome_of_phase(&status.phase);
                        self.last_phase = status.phase.clone();
                        Observation { transitioned: true, outcome }
                    }
                },
                None => Observation { transitioned: false, outcome: None },
            },
            WatchEvent::Removed => Observation {
                transitioned: false,
                outcome: Some(VmiOutcome::Deleted),
            },
            WatchEvent::StreamEnded => Observation {
                transitioned: false,
                outcome: Some(VmiOutcome::WatchInterrupted),
            },
        }
    }
}

/// What a whole stream of events comes to.
pub struct Reduction {
    /// How the run ended.
    pub outcome: VmiOutcome,
    /// How many events were taken, the deciding one included.
    pub consumed: nat,
    /// The phases of the transitions, in the order in which they came.
    pub transitions: Seq<Seq<char>>,
}

/// The reduction of a stream, given the phase seen last before it. Events
/// are taken in order up to the first that ends the run. A stream that runs
/// out before that ends the run as interrupted.
pub open spec fn reduce(last: Seq<char>, events: Seq<WatchEventView>) -> Reduction
    decreases events.len(),
{
    if events.len() == 0 {
        Reduction { outcome: VmiOutcome::WatchInterrupted, consumed: 0, transitions: seq![] }
    } else {
        let seen = observation(last, events[0]);
        let reported = if seen.transitioned {
            seq![phase_after(last, events[0])]
        } else {
            seq![]
        };
        match seen.outcome {
            Some(outcome) => Reduction { outcome, consumed: 1, transitions: reported },
            None => {
                let rest = reduce(phase_after(last, events[0]), events.drop_first());
                Reduction {
                    outcome: rest.outcome,
                    consumed: rest.consumed + 1,
                    transitions: reported + rest.transitions,
                }
            },
        }
    }
}

/// No event of the list ends the run.
pub open spec fn undecided(last: Seq<char>, events: Seq<WatchEventView>) -> bool
    decreases events.len(),
{
    events.len() == 0 || (observation(last, events[0]).outcome is None && undecided(
        phase_after(last, events[0]),
        events.drop_first(),
    ))
}

/// The phase seen last after a list of events.
pub open spec fn phase_after_all(last: Seq<char>, events: Seq<WatchEventView>) -> Seq<char>
    decreases events.len(),
{
    if events.len() == 0 {
        last
    } else {
        phase_after_all(phase_after(last, events[0]), events.drop_first())
    }
}

/// The summary of a stream that was followed to its outcome.
#[derive(Debug, Clone)]
pub struct WatchSummary {
    /// How the run ended.
    pub outcome: VmiOutcome,
    /// How many events were taken, the deciding one included.
    pub consumed: usize,
    /// The phases of the transitions, in the order in which they came.
    pub transitions: Vec<String>,
}

impl View for WatchSummary {
    type V = Reduction;

    open spec fn view(&self) -> Reduction {
        Reduction {
            outcome: self.outcome,
            consumed: self.consumed as nat,
            transitions: self.transitions@.map_values(|phase: String| phase@),
        }
    }
}

/// Follows the events of the watch on an instance until one of them ends
/// the run, and tells how it ended. Events behind the deciding one are not
/// looked at.
pub fn wait_for_vmi(events: &Vec<WatchEvent>) -> (r: WatchSummary)
    ensures
        r@ == reduce(INITIAL_PHASE@, event_views(events@)),
{
    let mut tracker = PhaseTracker::new();
    let mut transitions: Vec<String> = Vec::new();
    let mut taken: usize = 0;
    let ghost all = event_views(events@);
    proof {
        assert(all.skip(0) == all);
        assert(transitions@.map_values(|phase: String| phase@) + reduce(
            INITIAL_PHASE@,
            all,
        ).transitions == reduce(INITIAL_PHASE@, all).transitions);
    }
    while taken < events.len()
        invariant
            taken <= events@.len(),
            all == event_views(events@),
            reduce(INITIAL_PHASE@, all).outcome == reduce(
                tracker@,
                all.skip(taken as int),
            ).outcome,
            reduce(INITIAL_PHASE@, all).consumed == taken + reduce(
                tracker@,
                all.skip(taken as int),
            ).consumed,
            reduce(INITIAL_PHASE@, all).transitions == transitions@.map_values(
                |phase: String| phase@,
            ) + reduce(tracker@, all.skip(taken as int)).transitions,
        decreases events@.len() - taken,
    {
        let ghost last = tracker@;
        let ghost before = transitions@.map_values(|phase: String| phase@);
        let ghost tail = all.skip(taken as int);
        let seen = tracker.observe(&events[taken]);
        proof {
            assert(tail[0] == events@[taken as int]@);
            assert(tail.drop_first() == all.skip(taken + 1));
        }
        if seen.transitioned {
            transitions.push(tracker.last_phase.clone());
            assert(transitions@.map_values(|phase: String| phase@) == before + seq![tracker@]);
        }
        proof {
            let now = transitions@.map_values(|phase: String| phase@);
            let reported = if seen.transitioned {
                seq![tracker@]
            } else {
                Seq::<Seq<char>>::empty()
            };
            assert(now == before + reported);
            if seen.outcome is None {
                let rest = reduce(tracker@, all.skip(taken + 1)).transitions;
                assert(reduce(last, tail).transitions == reported + rest);
                assert(before + (reported + rest) == now + rest);
            } else {
                assert(reduce(last, tail).transitions == reported);
            }
        }
        taken += 1;
        if let Some(outcome) = seen.outcome {
            return WatchSummary { outcome, consumed: taken, transitions };
        }
    }
    assert(all.skip(taken as int).len() == 0);
    assert(transitions@.map_values(|phase: String| phase@) + Seq::<Seq<char>>::empty()
        == transitions@.map_values(|phase: String| phase@));
    WatchSummary { outcome: VmiOutcome::WatchInterrupted, consumed: taken, transitions }
}

/// The outcome is decided by the first event that ends the run, and by no
/// event behind it: where some event ends the run, a stream that agrees
/// with this one up to that event comes to the same.
pub proof fn lemma_reduce_ignores_rest(
    last: Seq<char>,
    events: Seq<WatchEventView>,
    other: Seq<WatchEventView>,
)
    requires
        !undecided(last, events),
        reduce(last, events).consumed <= other.len(),
        other.take(reduce(last, events).consumed as int) == events.take(
            reduce(last, events).consumed as int,
        ),
    ensures
        1 <= reduce(last, events).consumed <= events.len(),
        reduce(last, other) == reduce(last, events),
    decreases events.len(),
{
    let n = reduce(last, events).consumed as int;
    assert(events.len() > 0);
    assert(other.take(n)[0] == events.take(n)[0]);
    if observation(last, events[0]).outcome is None {
        let next = phase_after(last, events[0]);
        let theirs = other.drop_first().take(n - 1);
        let ours = events.drop_first().take(n - 1);
        lemma_reduce_ignores_rest_bound(next, events.drop_first());
        assert forall|i: int| 0 <= i < n - 1 implies #[trigger] theirs[i] == ours[i] by {
            assert(other.take(n)[i + 1] == events.take(n)[i + 1]);
        }
        assert(theirs == ours);
        lemma_reduce_ignores_rest(next, events.drop_first(), other.drop_first());
    }
}

/// No more events are taken than there are, and at least one where some
/// event ends the run.
proof fn lemma_reduce_ignores_rest_bound(last: Seq<char>, events: Seq<WatchEventView>)
    ensures
        reduce(last, events).consumed <= events.len(),
        !undecided(last, events) ==> reduce(last, events).consumed >= 1,
    decreases events.len(),
{
    if events.len() > 0 && observation(last, events[0]).outcome is None {
        lemma_reduce_ignores_rest_bound(phase_after(last, events[0]), events.drop_first());
    }
}

/// A stream in which no event ends the run is taken whole, and the run ends
/// as interrupted.
pub proof fn lemma_reduce_undecided(last: Seq<char>, events: Seq<WatchEventView>)
    requires
        undecided(last, events),
    ensures
        reduce(last, events).outcome == VmiOutcome::WatchInterrupted,
        reduce(last, events).consumed == events.len(),
    decreases events.len(),
{
    if events.len() > 0 {
        lemma_reduce_undecided(phase_after(last, events[0]), events.drop_first());
    }
}

/// The first event that ends the run decides: where no event before the
/// one at `at` ends the run and that one ends it, the stream comes to its
/// outcome, with that event as the last one taken.
pub proof fn lemma_first_deciding_event(last: Seq<char>, events: Seq<WatchEventView>, at: int)
    requires
        0 <= at < events.len(),
        undecided(last, events.take(at)),
        observation(phase_after_all(last, events.take(at)), events[at]).outcome is Some,
    ensures
        reduce(last, events).outcome == observation(
            phase_after_all(last, events.take(at)),
            events[at],
        ).outcome->0,
        reduce(last, events).consumed == at + 1,
    decreases at,
{
    if at == 0 {
        assert(events.take(0).len() == 0);
    } else {
        let front = events.take(at);
        assert(front[0] == events[0]);
        assert(front.drop_first() == events.drop_first().take(at - 1));
        assert(events.drop_first()[at - 1] == events[at]);
        lemma_first_deciding_event(phase_after(last, events[0]), events.drop_first(), at - 1);
    }
}

/// A removal ends the run as deleted wherever it comes, and nothing behind
/// it is taken: where no event before the one at `at` ends the run and that
/// one is a removal, the outcome is `Deleted` and `at + 1` events are taken.
pub proof fn lemma_removal_ends_run(last: Seq<char>, events: Seq<WatchEventView>, at: int)
    requires
        0 <= at < events.len(),
        undecided(last, events.take(at)),
        events[at] == WatchEventView::Removed,
    ensures
        reduce(last, events).outcome == VmiOutcome::Deleted,
        reduce(last, events).consumed == at + 1,
{
    lemma_first_deciding_event(last, events, at);
}

/// Consecutive duplicates are suppressed: the first transition differs from
/// the phase seen last before the stream, and each later one from the one
/// before it.
pub proof fn lemma_transitions_differ(last: Seq<char>, events: Seq<WatchEventView>)
    ensures
        reduce(last, events).transitions.len() > 0 ==> reduce(last, events).transitions[0] != last,
        forall|i: int|
            0 <= i < reduce(last, events).transitions.len() - 1 ==> #[trigger] reduce(
                last,
                events,
            ).transitions[i] != reduce(last, events).transitions[i + 1],
        reduce(last, events).transitions.len() <= reduce(last, events).consumed,
    decreases events.len(),
{
    if events.len() > 0 {
        let seen = observation(last, events[0]);
        let next = phase_after(last, events[0]);
        if seen.outcome is None {
            lemma_transitions_differ(next, events.drop_first());
            let rest = reduce(next, events.drop_first()).transitions;
            let whole = reduce(last, events).transitions;
            if seen.transitioned {
                assert(whole == seq![next] + rest);
                assert forall|i: int| 0 <= i < whole.len() - 1 implies #[trigger] whole[i]
                    != whole[i + 1] by {
                    if i > 0 {
                        assert(rest[i - 1] != rest[i]);
                    }
                }
            } else {
                assert(whole == rest);
                assert(next == last);
            }
        }
    }
}

} // verus!
