//! The order of a run: look for an instance left behind and clear it, fetch
//! the template, create the instance, wait for its outcome or a signal,
//! clean up, report. Each step takes the answer to what was asked last and
//! tells what to ask next; the asking itself is left to the caller.

use vstd::prelude::*;
use crate::bootstrap::{
    runner_info_of, Opts, OptsView, RunnerInfo, RunnerInfoView, UrlEnvironment,
    UrlEnvironmentView,
};
use crate::error::{result_view, run_result, ConfigError, RunError, RunErrorView};
use crate::outcome::VmiOutcome;
use crate::template::{
    composed, instantiate, instantiated, VirtualMachineInstance, VirtualMachineInstanceView,
    VirtualMachineTemplate, VirtualMachineTemplateView,
};

verus! {

/// A signal that asks the process to stop.
#[derive(Debug, Clone, Copy, PartialEq, Eq, Structural)]
pub enum Signal {
    Terminate,
    Interrupt,
}

/// Where a run stands.
#[derive(Debug, Clone, Copy, PartialEq, Eq, Structural)]
pub enum Stage {
    /// Nothing has been asked yet.
    Init,
    /// An instance of the runner's name is looked for; where `deleting`, one
    /// was found and its deletion is awaited.
    PreexistingCheck { deleting: bool },
    /// The template is awaited; where `submitted`, the instance was handed
    /// in and its creation is awaited.
    Creating { submitted: bool },
    /// The outcome of the instance, or a signal, is awaited.
    Watching,
    /// The run has come to this outcome, and the deletion of the instance is
    /// awaited.
    Cleanup(VmiOutcome),
    /// The run is over, with this outcome.
    Done(VmiOutcome),
    /// The run is over, ended by a failure.
    Aborted,
}

/// The answer to what was asked last.
#[derive(Debug)]
pub enum Event {
    /// The run begins.
    Start,
    /// The lookup has been answered.
    Lookup { found: bool },
    /// The deletion has gone through, finalization included.
    Finalized,
    /// There was no instance to delete: it was gone already.
    Absent,
    /// The template has been fetched.
    Template(VirtualMachineTemplate),
    /// The instance has been created.
    Created,
    /// The watch on the instance has come to an outcome.
    Watched(VmiOutcome),
    /// A signal came first.
    Signal(Signal),
    /// The call to the cluster failed.
    ApiFailure(String),
}

/// What to ask next.
#[derive(Debug)]
pub enum Action {
    /// Look for an instance of this name.
    Lookup { name: String },
    /// Delete the instance of this name and wait for its finalization.
    DeleteAndFinalize { name: String },
    /// Fetch the virtual machine of this name, for its template.
    FetchTemplate { name: String },
    /// Create this instance.
    Create { instance: VirtualMachineInstance },
    /// Wait for whichever comes first: the outcome of the watch on the
    /// instance of this name, or a signal.
    Watch { name: String },
    /// Leave, with this result.
    Exit { result: Result<(), RunError> },
    /// The run is over already: nothing is to be done.
    Halt,
}

pub enum EventView {
    Start,
    Lookup { found: bool },
    Finalized,
    Absent,
    Template(VirtualMachineTemplateView),
    Created,
    Watched(VmiOutcome),
    Signal(Signal),
    ApiFailure(Seq<char>),
}

pub enum ActionView {
    Lookup { name: Seq<char> },
    DeleteAndFinalize { name: Seq<char> },
    FetchTemplate { name: Seq<char> },
    Create { instance: VirtualMachineInstanceView },
    Watch { name: Seq<char> },
    Exit { result: Result<(), RunErrorView> },
    Halt,
}

impl View for Event {
    type V = EventView;

    open spec fn view(&self) -> EventView {
        match self {
            Event::Start => EventView::Start,
            Event::Lookup { found } => EventView::Lookup { found: *found },
            Event::Finalized => EventView::Finalized,
            Event::Absent => EventView::Absent,
            Event::Template(template) => EventView::Template(template@),
            Event::Created => EventView::Created,
            Event::Watched(outcome) => EventView::Watched(*outcome),
            Event::Signal(signal) => EventView::Signal(*signal),
            Event::ApiFailure(text) => EventView::ApiFailure(text@),
        }
    }
}

impl View for Action {
    type V = ActionView;

    open spec fn view(&self) -> ActionView {
        match self {
            Action::Lookup { name } => ActionView::Lookup { name: name@ },
            Action::DeleteAndFinalize { name } => ActionView::DeleteAndFinalize { name: name@ },
            Action::FetchTemplate { name } => ActionView::FetchTemplate { name: name@ },
            Action::Create { instance } => ActionView::Create { instance: instance@ },
            Action::Watch { name } => ActionView::Watch { name: name@ },
            Action::Exit { result } => ActionView::Exit { result: result_view(*result) },
            Action::Halt => ActionView::Halt,
        }
    }
}

/// One run: the names it works on, what the runner is started with, and
/// where it stands.
#[derive(Debug, Clone)]
pub struct Orchestrator {
    /// The name of the runner, and of its instance.
    pub name: String,
    /// The name of the virtual machine that holds the template.
    pub vm_template: String,
    /// What the runner is started with.
    pub runner_info: RunnerInfo,
    /// Where the run stands.
    pub stage: Stage,
}

pub struct OrchestratorView {
    pub name: Seq<char>,
    pub vm_template: Seq<char>,
    pub runner_info: RunnerInfoView,
    pub stage: Stage,
}

impl View for Orchestrator {
    type V = OrchestratorView;

    open spec fn view(&self) -> OrchestratorView {
        OrchestratorView {
            name: self.name@,
            vm_template: self.vm_template@,
            runner_info: self.runner_info@,
            stage: self.stage,
        }
    }
}

impl EventView {
    /// The instance that was to be deleted is gone: its deletion has gone
    /// through, or it was not there. Deleting is idempotent.
    pub open spec fn gone(self) -> bool {
        self is Finalized || self is Absent
    }
}

impl OrchestratorView {
    /// The same run at another stage.
    pub open spec fn at(self, stage: Stage) -> OrchestratorView {
        OrchestratorView { stage, ..self }
    }

    /// The run ends with `outcome`.
    pub open spec fn finish(self, outcome: VmiOutcome) -> (OrchestratorView, ActionView) {
        (self.at(Stage::Done(outcome)), ActionView::Exit { result: run_result(outcome) })
    }

    /// The watch or a signal has brought `outcome`: the instance is deleted
    /// unless it is gone already.
    pub open spec fn conclude(self, outcome: VmiOutcome) -> (OrchestratorView, ActionView) {
        if outcome == VmiOutcome::Deleted {
            self.finish(outcome)
        } else {
            (
                self.at(Stage::Cleanup(outcome)),
                ActionView::DeleteAndFinalize { name: self.name },
            )
        }
    }

    /// The run ends with a failure.
    pub open spec fn abort(self, error: RunErrorView) -> (OrchestratorView, ActionView) {
        (self.at(Stage::Aborted), ActionView::Exit { result: Err(error) })
    }

    /// The template has come: the instance composed from it is handed in
    /// for creation. Where the runner information cannot be serialized,
    /// the run ends with that failure, and nothing is created.
    pub open spec fn submit(self, template: VirtualMachineTemplateView) -> (
        OrchestratorView,
        ActionView,
    ) {
        match instantiated(template, self.name, self.runner_info) {
            Some(instance) => (
                self.at(Stage::Creating { submitted: true }),
                ActionView::Create { instance },
            ),
            None => self.abort(RunErrorView::Serialize),
        }
    }

    /// The step that an event leads to. A run that is over stays as it is.
    /// A failed call ends the run at once, with no further call. So does an
    /// event that does not answer what was asked.
    pub open spec fn next(self, event: EventView) -> (OrchestratorView, ActionView) {
        match (self.stage, event) {
            (Stage::Done(_), _) => (self, ActionView::Halt),
            (Stage::Aborted, _) => (self, ActionView::Halt),
            (_, EventView::ApiFailure(text)) => self.abort(RunErrorView::Api(text)),
            (Stage::Init, EventView::Start) => (
                self.at(Stage::PreexistingCheck { deleting: false }),
                ActionView::Lookup { name: self.name },
            ),
            (Stage::PreexistingCheck { deleting: false }, EventView::Lookup { found: true }) => (
                self.at(Stage::PreexistingCheck { deleting: true }),
                ActionView::DeleteAndFinalize { name: self.name },
            ),
            (Stage::PreexistingCheck { deleting: false }, EventView::Lookup { found: false }) => (
                self.at(Stage::Creating { submitted: false }),
                ActionView::FetchTemplate { name: self.vm_template },
            ),
            (Stage::PreexistingCheck { deleting: true }, EventView::Finalized) => (
                self.at(Stage::Creating { submitted: false }),
                ActionView::FetchTemplate { name: self.vm_template },
            ),
            (Stage::PreexistingCheck { deleting: true }, EventView::Absent) => (
                self.at(Stage::Creating { submitted: false }),
                ActionView::FetchTemplate { name: self.vm_template },
            ),
            (Stage::Creating { submitted: false }, EventView::Template(template)) => self.submit(
                template,
            ),
            (Stage::Creating { submitted: true }, EventView::Created) => (
                self.at(Stage::Watching),
                ActionView::Watch { name: self.name },
            ),
            (Stage::Watching, EventView::Signal(_)) => self.conclude(VmiOutcome::WatchInterrupted),
            (Stage::Watching, EventView::Watched(outcome)) => self.conclude(outcome),
            (Stage::Cleanup(outcome), EventView::Finalized) => self.finish(outcome),
            (Stage::Cleanup(outcome), EventView::Absent) => self.finish(outcome),
            _ => self.abort(RunErrorView::UnexpectedEvent),
        }
    }

    /// A step of the run: the one that `next` gives.
    pub open spec fn steps_to(
        self,
        event: EventView,
        after: OrchestratorView,
        action: ActionView,
    ) -> bool {
        (after, action) == self.next(event)
    }
}

/// The view of a new run or the error in its place.
pub open spec fn new_run(opts: OptsView, env: UrlEnvironmentView) -> Result<
    OrchestratorView,
    ConfigError,
> {
    match runner_info_of(opts, env) {
        Ok(runner_info) => Ok(
            OrchestratorView {
                name: opts.name,
                vm_template: opts.vm_template,
                runner_info,
                stage: Stage::Init,
            },
        ),
        Err(e) => Err(e),
    }
}

pub open spec fn orchestrator_view(r: Result<Orchestrator, ConfigError>) -> Result<
    OrchestratorView,
    ConfigError,
> {
    match r {
        Ok(run) => Ok(run@),
        Err(e) => Err(e),
    }
}

impl Orchestrator {
    /// Sets a run up from its settings. Nothing is asked of the cluster yet.
    pub fn new(opts: &Opts, env: &UrlEnvironment) -> (r: Result<Orchestrator, ConfigError>)
        ensures
            orchestrator_view(r) == new_run(opts@, env@),
    {
        match RunnerInfo::from_opts(opts, env) {
            Ok(runner_info) => Ok(
                Orchestrator {
                    name: opts.name.clone(),
                    vm_template: opts.vm_template.clone(),
                    runner_info,
                    stage: Stage::Init,
                },
            ),
            Err(e) => Err(e),
        }
    }

    /// Whether the run is over.
    pub fn is_over(&self) -> (r: bool)
        ensures
            r == (self.stage is Done || self.stage is Aborted),
    {
        match self.stage {
            Stage::Done(_) => true,
            Stage::Aborted => true,
            _ => false,
        }
    }

    fn abort(&mut self, error: RunError) -> (action: Action)
        ensures
            (final(self)@, action@) == old(self)@.abort(error@),
    {
        self.stage = Stage::Aborted;
        Action::Exit { result: Err(error) }
    }

    fn finish(&mut self, outcome: VmiOutcome) -> (action: Action)
        ensures
            (final(self)@, action@) == old(self)@.finish(outcome),
    {
        self.stage = Stage::Done(outcome);
        Action::Exit { result: outcome.into_result() }
    }

    fn conclude(&mut self, outcome: VmiOutcome) -> (action: Action)
        ensures
            (final(self)@, action@) == old(self)@.conclude(outcome),
    {
        match outcome {
            VmiOutcome::Deleted => self.finish(outcome),
            _ => {
                self.stage = Stage::Cleanup(outcome);
                Action::DeleteAndFinalize { name: self.name.clone() }
            },
        }
    }

    /// The template has come: the instance is composed and handed out for
    /// creation, unless the runner information cannot be serialized.
    fn submit(&mut self, template: VirtualMachineTemplate) -> (action: Action)
        ensures
            (final(self)@, action@) == old(self)@.submit(template@),
    {
        match instantiate(template, self.name.clone(), &self.runner_info) {
            Ok(instance) => {
                self.stage = Stage::Creating { submitted: true };
                Action::Create { instance }
            },
            Err(e) => self.abort(RunError::Serialize(e)),
        }
    }

    /// Takes the answer to what was asked last, and tells what to ask next.
    pub fn step(&mut self, event: Event) -> (action: Action)
        ensures
            (final(self)@, action@) == old(self)@.next(event@),
    {
        match self.stage {
            Stage::Done(_) => {
                return Action::Halt;
            },
            Stage::Aborted => {
                return Action::Halt;
            },
            _ => {},
        }
        match event {
            Event::ApiFailure(text) => self.abort(RunError::Api(text)),
            Event::Start => match self.stage {
                Stage::Init => {
                    self.stage = Stage::PreexistingCheck { deleting: false };
                    Action::Lookup { name: self.name.clone() }
                },
                _ => self.abort(RunError::UnexpectedEvent),
            },
            Event::Lookup { found } => match self.stage {
                Stage::PreexistingCheck { deleting: false } => {
                    if found {
                        self.stage = Stage::PreexistingCheck { deleting: true };
                        Action::DeleteAndFinalize { name: self.name.clone() }
                    } else {
                        self.stage = Stage::Creating { submitted: false };
                        Action::FetchTemplate { name: self.vm_template.clone() }
                    }
                },
                _ => self.abort(RunError::UnexpectedEvent),
            },
            Event::Finalized | Event::Absent => match self.stage {
                Stage::PreexistingCheck { deleting: true } => {
                    self.stage = Stage::Creating { submitted: false };
                    Action::FetchTemplate { name: self.vm_template.clone() }
                },
                Stage::Cleanup(outcome) => self.finish(outcome),
                _ => self.abort(RunError::UnexpectedEvent),
            },
            Event::Template(template) => match self.stage {
                Stage::Creating { submitted: false } => self.submit(template),
                _ => self.abort(RunError::UnexpectedEvent),
            },
            Event::Created => match self.stage {
                Stage::Creating { submitted: true } => {
                    self.stage = Stage::Watching;
                    Action::Watch { name: self.name.clone() }
                },
                _ => self.abort(RunError::UnexpectedEvent),
            },
            Event::Watched(outcome) => match self.stage {
                Stage::Watching => self.conclude(outcome),
                _ => self.abort(RunError::UnexpectedEvent),
            },
            Event::Signal(_) => match self.stage {
                Stage::Watching => self.conclude(VmiOutcome::WatchInterrupted),
                _ => self.abort(RunError::UnexpectedEvent),
            },
        }
    }

    /// Takes a list of answers, one step each and in their order, and tells
    /// what each step asked for. The steps make up a run from the state
    /// before the call to the state after it.
    pub fn run(&mut self, events: Vec<Event>) -> (actions: Vec<Action>)
        ensures
            exists|states: Seq<OrchestratorView>|
                {
                    &&& #[trigger] is_run(
                        old(self)@,
                        event_views(events@),
                        states,
                        action_views(actions@),
                    )
                    &&& states.last() == final(self)@
                },
    {
        let mut actions: Vec<Action> = Vec::new();
        let ghost start = self@;
        let ghost all = event_views(events@);
        let ghost mut states: Seq<OrchestratorView> = seq![self@];
        for event in it: events
            invariant
                all == event_views(events@),
                it.seq() == events@,
                states.len() == it.index() + 1,
                actions@.len() == it.index(),
                states[0] == start,
                states.last() == self@,
                forall|i: int|
                    0 <= i < it.index() ==> #[trigger] step_at(
                        all,
                        states,
                        action_views(actions@),
                        i,
                    ),
        {
            let ghost before = states;
            let ghost asked = action_views(actions@);
            let action = self.step(event);
            actions.push(action);
            proof {
                states = states.push(self@);
                let now = action_views(actions@);
                assert forall|i: int| 0 <= i < it.index() + 1 implies #[trigger] step_at(
                    all,
                    states,
                    now,
                    i,
                ) by {
                    if i < it.index() {
                        assert(step_at(all, before, asked, i));
                    }
                }
            }
        }
        proof {
            assert(is_run(start, all, states, action_views(actions@)));
        }
        actions
    }
}

/// The views of a list of events, in its order.
pub open spec fn event_views(events: Seq<Event>) -> Seq<EventView> {
    events.map_values(|e: Event| e@)
}

/// The views of a list of actions, in its order.
pub open spec fn action_views(actions: Seq<Action>) -> Seq<ActionView> {
    actions.map_values(|a: Action| a@)
}

/// How far a stage is along the run.
pub open spec fn progress(stage: Stage) -> int {
    match stage {
        Stage::Init => 0,
        Stage::PreexistingCheck { deleting: false } => 1,
        Stage::PreexistingCheck { deleting: true } => 2,
        Stage::Creating { submitted: false } => 3,
        Stage::Creating { submitted: true } => 4,
        Stage::Watching => 5,
        Stage::Cleanup(_) => 6,
        Stage::Done(_) => 7,
        Stage::Aborted => 7,
    }
}

/// The step from the state at `i` to the one behind it.
pub open spec fn step_at(
    events: Seq<EventView>,
    states: Seq<OrchestratorView>,
    actions: Seq<ActionView>,
    i: int,
) -> bool {
    states[i].steps_to(events[i], states[i + 1], actions[i])
}

/// A run from `start`: the states that the events lead through, one step
/// each, and the action that each step asks for.
pub open spec fn is_run(
    start: OrchestratorView,
    events: Seq<EventView>,
    states: Seq<OrchestratorView>,
    actions: Seq<ActionView>,
) -> bool {
    &&& states.len() == events.len() + 1
    &&& actions.len() == events.len()
    &&& states[0] == start
    &&& forall|i: int| 0 <= i < events.len() ==> #[trigger] step_at(events, states, actions, i)
}

/// A run only moves forward: between two of its states the names and the
/// runner information stay, and the stage has advanced, unless the run was
/// over already and stands still.
pub proof fn lemma_run_advances(
    start: OrchestratorView,
    events: Seq<EventView>,
    states: Seq<OrchestratorView>,
    actions: Seq<ActionView>,
    i: int,
    j: int,
)
    requires
        is_run(start, events, states, actions),
        0 <= i <= j <= events.len(),
    ensures
        states[j].name == states[i].name,
        states[j].vm_template == states[i].vm_template,
        states[j].runner_info == states[i].runner_info,
        progress(states[i].stage) + (j - i) <= progress(states[j].stage) || (progress(
            states[j].stage,
        ) == 7 && (progress(states[i].stage) == 7 ==> states[j] == states[i])),
    decreases j - i,
{
    if i < j {
        lemma_run_advances(start, events, states, actions, i, j - 1);
        assert(step_at(events, states, actions, j - 1));
    }
}

/// The instance is created only after the lookup has been answered, and
/// where the lookup found an instance of the runner's name, only after the
/// deletion of that instance was asked for and the instance was reported
/// gone. The instance is created at most once.
pub proof fn lemma_recovery_precedes_create(
    start: OrchestratorView,
    events: Seq<EventView>,
    states: Seq<OrchestratorView>,
    actions: Seq<ActionView>,
    at: int,
)
    requires
        is_run(start, events, states, actions),
        start.stage == Stage::Init,
        0 <= at < events.len(),
        actions[at] is Create,
    ensures
        events[0] == EventView::Start,
        actions[0] == (ActionView::Lookup { name: start.name }),
        events[1] is Lookup,
        events[1] == (EventView::Lookup { found: false }) ==> at == 2,
        events[1] == (EventView::Lookup { found: true }) ==> {
            &&& at == 3
            &&& actions[1] == ActionView::DeleteAndFinalize { name: start.name }
            &&& events[2].gone()
        },
        forall|other: int| 0 <= other < events.len() && actions[other] is Create ==> other == at,
        events[at] matches EventView::Template(template) && start.runner_info.payload() matches Some(
            payload,
        ) && actions[at] == (ActionView::Create {
            instance: composed(template, start.name, payload),
        }),
{
    lemma_run_advances(start, events, states, actions, 0, at);
    assert(step_at(events, states, actions, at));
    assert(states[at].stage == Stage::Creating { submitted: false });
    assert(at <= 3);
    assert(step_at(events, states, actions, 0));
    if at >= 1 {
        lemma_run_advances(start, events, states, actions, 0, 1);
        assert(step_at(events, states, actions, 1));
    }
    if at >= 2 {
        lemma_run_advances(start, events, states, actions, 0, 2);
        assert(step_at(events, states, actions, 2));
    }
    if at >= 3 {
        lemma_run_advances(start, events, states, actions, 0, 3);
    }
    assert forall|other: int| 0 <= other < events.len() && actions[other] is Create implies other
        == at by {
        assert(step_at(events, states, actions, other));
        if other < at {
            lemma_run_advances(start, events, states, actions, other, at);
        } else {
            lemma_run_advances(start, events, states, actions, at, other);
        }
    }
}

/// The instance is deleted at most twice in a run, and each time for
/// another reason: once at most to clear an instance that the lookup found,
/// before the creation, and once at most to clean up, while the outcome is
/// awaited no longer.
pub proof fn lemma_deletes_differ(
    start: OrchestratorView,
    events: Seq<EventView>,
    states: Seq<OrchestratorView>,
    actions: Seq<ActionView>,
    first: int,
    second: int,
)
    requires
        is_run(start, events, states, actions),
        0 <= first < second < events.len(),
        actions[first] is DeleteAndFinalize,
        actions[second] is DeleteAndFinalize,
    ensures
        states[first].stage == (Stage::PreexistingCheck { deleting: false }),
        events[first] == (EventView::Lookup { found: true }),
        states[second].stage == Stage::Watching,
        states[second + 1].stage is Cleanup,
{
    assert(step_at(events, states, actions, first));
    assert(step_at(events, states, actions, second));
    lemma_run_advances(start, events, states, actions, first, second);
}

/// In a run from the beginning, cleaning up is never awaited for an
/// instance that is gone already.
pub proof fn lemma_cleanup_outcome(
    start: OrchestratorView,
    events: Seq<EventView>,
    states: Seq<OrchestratorView>,
    actions: Seq<ActionView>,
    i: int,
)
    requires
        is_run(start, events, states, actions),
        start.stage == Stage::Init,
        0 <= i <= events.len(),
    ensures
        states[i].stage != Stage::Cleanup(VmiOutcome::Deleted),
    decreases i,
{
    if i > 0 {
        lemma_cleanup_outcome(start, events, states, actions, i - 1);
        assert(step_at(events, states, actions, i - 1));
    }
}

/// A run that comes to an outcome has cleaned up behind itself exactly when
/// the instance was not gone already: with any outcome but `Deleted`, the
/// step before the last asked for the deletion of the instance, and the
/// last step took the report that it is gone; with `Deleted`, the last step
/// took the outcome itself, and no deletion was asked for. Either way the
/// last step asks to leave with the result of the outcome.
pub proof fn lemma_cleanup_precedes_exit(
    start: OrchestratorView,
    events: Seq<EventView>,
    states: Seq<OrchestratorView>,
    actions: Seq<ActionView>,
    last: int,
    outcome: VmiOutcome,
)
    requires
        is_run(start, events, states, actions),
        start.stage == Stage::Init,
        0 <= last < events.len(),
        states[last].stage !is Done,
        states[last + 1].stage == Stage::Done(outcome),
    ensures
        actions[last] == (ActionView::Exit { result: run_result(outcome) }),
        outcome == VmiOutcome::Deleted ==> {
            &&& states[last].stage == Stage::Watching
            &&& events[last] == EventView::Watched(VmiOutcome::Deleted)
        },
        outcome != VmiOutcome::Deleted ==> {
            &&& states[last].stage == Stage::Cleanup(outcome)
            &&& events[last].gone()
            &&& last >= 1
            &&& states[last - 1].stage == Stage::Watching
            &&& actions[last - 1] == ActionView::DeleteAndFinalize { name: start.name }
        },
{
    assert(step_at(events, states, actions, last));
    lemma_run_advances(start, events, states, actions, 0, last);
    lemma_cleanup_outcome(start, events, states, actions, last);
    if outcome != VmiOutcome::Deleted {
        assert(states[last].stage == Stage::Cleanup(outcome));
        assert(step_at(events, states, actions, last - 1));
        lemma_run_advances(start, events, states, actions, 0, last - 1);
    }
}

/// Whichever comes first while the outcome is awaited decides it: where a
/// run comes to an outcome, that outcome is `WatchInterrupted` if the step
/// taken while watching took a signal, and the outcome of the watch if it
/// took that.
pub proof fn lemma_first_to_come_decides(
    start: OrchestratorView,
    events: Seq<EventView>,
    states: Seq<OrchestratorView>,
    actions: Seq<ActionView>,
    watching: int,
    outcome: VmiOutcome,
)
    requires
        is_run(start, events, states, actions),
        0 <= watching < events.len(),
        states[watching].stage == Stage::Watching,
        states.last().stage == Stage::Done(outcome),
    ensures
        events[watching] is Signal || events[watching] is Watched,
        events[watching] is Signal ==> outcome == VmiOutcome::WatchInterrupted,
        events[watching] matches EventView::Watched(watched) ==> outcome == watched,
{
    let end = events.len() as int;
    assert(step_at(events, states, actions, watching));
    lemma_run_advances(start, events, states, actions, watching + 1, end);
    if watching + 1 < end {
        assert(step_at(events, states, actions, watching + 1));
        lemma_run_advances(start, events, states, actions, watching + 2, end);
    }
}

} // verus!
