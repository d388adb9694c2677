use kubevirt_actions_runner::annotations::Annotations;
use kubevirt_actions_runner::bootstrap::{Opts, RunnerInfo, UrlEnvironment};
use kubevirt_actions_runner::error::{exit_code, ConfigError, RunError};
use kubevirt_actions_runner::orchestrator::{Action, Event, Orchestrator, Signal, Stage};
use kubevirt_actions_runner::outcome::VmiOutcome;
use kubevirt_actions_runner::template::{
    Metadata, VirtualMachineInstanceSpec, VirtualMachineTemplate, RUNNER_INFO_ANNOTATION,
};
use kubevirt_actions_runner::tracker::{
    wait_for_vmi, InstanceSnapshot, VirtualMachineInstanceStatus, WatchEvent,
};
use kubevirt_actions_runner::volume::{Volume, VolumeSource};
use serde_json::Value;

fn jit_opts() -> Opts {
    Opts {
        namespace: Some("ci".to_string()),
        name: "runner".to_string(),
        jitconfig: Some("abc".to_string()),
        token: None,
        url: None,
        ephemeral: false,
        groups: String::new(),
        labels: String::new(),
        vm_template: "ubuntu".to_string(),
    }
}

fn no_env() -> UrlEnvironment {
    UrlEnvironment { github_url: None, runner_org: None, runner_repo: None }
}

fn new_run() -> Orchestrator {
    Orchestrator::new(&jit_opts(), &no_env()).unwrap()
}

fn template() -> VirtualMachineTemplate {
    VirtualMachineTemplate {
        metadata: Metadata { name: None, annotations: Annotations::new(), other: Value::Null },
        spec: VirtualMachineInstanceSpec {
            volumes: vec![Volume { name: "data".to_string(), source: VolumeSource::Other(Value::Null) }],
            data: Value::Null,
        },
    }
}

fn assert_lookup(action: Action) {
    match action {
        Action::Lookup { name } => assert_eq!(name, "runner"),
        other => panic!("unexpected: {:?}", other),
    }
}

fn assert_delete(action: Action) {
    match action {
        Action::DeleteAndFinalize { name } => assert_eq!(name, "runner"),
        other => panic!("unexpected: {:?}", other),
    }
}

fn assert_fetch(action: Action) {
    match action {
        Action::FetchTemplate { name } => assert_eq!(name, "ubuntu"),
        other => panic!("unexpected: {:?}", other),
    }
}

fn assert_watch(action: Action) {
    match action {
        Action::Watch { name } => assert_eq!(name, "runner"),
        other => panic!("unexpected: {:?}", other),
    }
}

fn assert_halt(action: Action) {
    assert!(matches!(action, Action::Halt));
}

fn watching() -> Orchestrator {
    let mut run = new_run();
    assert_lookup(run.step(Event::Start));
    assert_fetch(run.step(Event::Lookup { found: false }));
    assert!(matches!(run.step(Event::Template(template())), Action::Create { .. }));
    assert_watch(run.step(Event::Created));
    assert_eq!(run.stage, Stage::Watching);
    run
}

#[test]
fn a_new_run_stands_at_the_beginning() {
    let run = new_run();
    assert_eq!(run.stage, Stage::Init);
    assert_eq!(run.name, "runner");
    assert_eq!(run.vm_template, "ubuntu");
    assert!(matches!(run.runner_info, RunnerInfo::Jit(_)));
    assert!(!run.is_over());
}

#[test]
fn a_run_is_not_set_up_from_faulty_settings() {
    let mut opts = jit_opts();
    opts.jitconfig = None;
    match Orchestrator::new(&opts, &no_env()) {
        Err(e) => assert_eq!(e, ConfigError::OrgAndRepoBothUnset),
        Ok(run) => panic!("unexpected: {:?}", run),
    }
    opts.url = Some("https://github.com/acme".to_string());
    match Orchestrator::new(&opts, &no_env()) {
        Err(e) => assert_eq!(e, ConfigError::TokenMissing),
        Ok(run) => panic!("unexpected: {:?}", run),
    }
}

#[test]
fn end_to_end_success() {
    let mut run = new_run();
    assert_lookup(run.step(Event::Start));
    assert_eq!(run.stage, Stage::PreexistingCheck { deleting: false });
    assert_fetch(run.step(Event::Lookup { found: false }));
    assert_eq!(run.stage, Stage::Creating { submitted: false });
    match run.step(Event::Template(template())) {
        Action::Create { instance } => {
            let names: Vec<String> = instance.spec.volumes.iter().map(|v| v.name.clone()).collect();
            assert_eq!(names, vec!["data", "runner-info"]);
            assert_eq!(instance.metadata.name, Some("runner".to_string()));
            assert_eq!(
                instance.metadata.annotations.get(RUNNER_INFO_ANNOTATION),
                Some("{\"jitconfig\":\"abc\"}".to_string())
            );
        }
        other => panic!("unexpected: {:?}", other),
    }
    assert_eq!(run.stage, Stage::Creating { submitted: true });
    assert_watch(run.step(Event::Created));
    assert_eq!(run.stage, Stage::Watching);

    let watched = wait_for_vmi(&vec![WatchEvent::Updated(InstanceSnapshot {
        status: Some(VirtualMachineInstanceStatus { phase: "Succeeded".to_string() }),
    })]);
    assert_eq!(watched.outcome, VmiOutcome::Succeeded);

    assert_delete(run.step(Event::Watched(watched.outcome)));
    assert_eq!(run.stage, Stage::Cleanup(VmiOutcome::Succeeded));
    match run.step(Event::Finalized) {
        Action::Exit { result } => {
            assert!(result.is_ok());
            assert_eq!(exit_code(&result), 0);
        }
        other => panic!("unexpected: {:?}", other),
    }
    assert_eq!(run.stage, Stage::Done(VmiOutcome::Succeeded));
    assert!(run.is_over());
}

#[test]
fn a_preexisting_instance_is_deleted_before_the_creation() {
    let mut run = new_run();
    let mut asked: Vec<&str> = Vec::new();
    for event in [
        Event::Start,
        Event::Lookup { found: true },
        Event::Finalized,
        Event::Template(template()),
        Event::Created,
    ] {
        asked.push(match run.step(event) {
            Action::Lookup { .. } => "lookup",
            Action::DeleteAndFinalize { .. } => "delete",
            Action::FetchTemplate { .. } => "fetch",
            Action::Create { .. } => "create",
            Action::Watch { .. } => "watch",
            Action::Exit { .. } => "exit",
            Action::Halt => "halt",
        });
    }
    assert_eq!(asked, vec!["lookup", "delete", "fetch", "create", "watch"]);
}

#[test]
fn nothing_is_created_while_the_old_instance_is_not_finalized() {
    let mut run = new_run();
    assert_lookup(run.step(Event::Start));
    assert_delete(run.step(Event::Lookup { found: true }));
    assert_eq!(run.stage, Stage::PreexistingCheck { deleting: true });
    match run.step(Event::Template(template())) {
        Action::Exit { result: Err(RunError::UnexpectedEvent) } => {}
        other => panic!("unexpected: {:?}", other),
    }
    assert_eq!(run.stage, Stage::Aborted);
}

#[test]
fn failure_outcome_cleans_up_and_fails() {
    let mut run = watching();
    assert_delete(run.step(Event::Watched(VmiOutcome::Failed)));
    match run.step(Event::Finalized) {
        Action::Exit { result } => {
            assert_eq!(exit_code(&result), 1);
            match result {
                Err(RunError::AbnormalOutcome(outcome)) => assert_eq!(outcome, VmiOutcome::Failed),
                other => panic!("unexpected: {:?}", other),
            }
        }
        other => panic!("unexpected: {:?}", other),
    }
    assert_eq!(run.stage, Stage::Done(VmiOutcome::Failed));
}

#[test]
fn a_deleted_instance_is_not_deleted_again() {
    let mut run = watching();
    match run.step(Event::Watched(VmiOutcome::Deleted)) {
        Action::Exit { result } => {
            assert_eq!(exit_code(&result), 1);
            match result {
                Err(RunError::AbnormalOutcome(outcome)) => assert_eq!(outcome, VmiOutcome::Deleted),
                other => panic!("unexpected: {:?}", other),
            }
        }
        other => panic!("unexpected: {:?}", other),
    }
    assert_eq!(run.stage, Stage::Done(VmiOutcome::Deleted));
}

#[test]
fn an_interrupted_watch_cleans_up_and_fails() {
    let mut run = watching();
    assert_delete(run.step(Event::Watched(VmiOutcome::WatchInterrupted)));
    match run.step(Event::Finalized) {
        Action::Exit { result: Err(RunError::AbnormalOutcome(outcome)) } => {
            assert_eq!(outcome, VmiOutcome::WatchInterrupted)
        }
        other => panic!("unexpected: {:?}", other),
    }
}

#[test]
fn either_signal_interrupts_the_watch() {
    for signal in [Signal::Terminate, Signal::Interrupt] {
        let mut run = watching();
        assert_delete(run.step(Event::Signal(signal)));
        assert_eq!(run.stage, Stage::Cleanup(VmiOutcome::WatchInterrupted));
        match run.step(Event::Finalized) {
            Action::Exit { result } => {
                assert_eq!(exit_code(&result), 1);
                assert_eq!(result.unwrap_err().message(), "VMI outcome: WatchInterrupted");
            }
            other => panic!("unexpected: {:?}", other),
        }
    }
}

#[test]
fn a_failed_call_ends_the_run_at_once() {
    let stages: Vec<Vec<Event>> = vec![
        vec![],
        vec![Event::Start],
        vec![Event::Start, Event::Lookup { found: true }],
        vec![Event::Start, Event::Lookup { found: false }],
        vec![Event::Start, Event::Lookup { found: false }, Event::Template(template())],
        vec![
            Event::Start,
            Event::Lookup { found: false },
            Event::Template(template()),
            Event::Created,
        ],
        vec![
            Event::Start,
            Event::Lookup { found: false },
            Event::Template(template()),
            Event::Created,
            Event::Watched(VmiOutcome::Succeeded),
        ],
    ];
    for events in stages {
        let mut run = new_run();
        for event in events {
            run.step(event);
        }
        assert!(!run.is_over());
        match run.step(Event::ApiFailure("boom".to_string())) {
            Action::Exit { result } => {
                assert_eq!(exit_code(&result), 1);
                match result {
                    Err(RunError::Api(text)) => assert_eq!(text, "boom"),
                    other => panic!("unexpected: {:?}", other),
                }
            }
            other => panic!("unexpected: {:?}", other),
        }
        assert_eq!(run.stage, Stage::Aborted);
        assert!(run.is_over());
    }
}

#[test]
fn a_run_that_is_over_stays_over() {
    let mut run = watching();
    run.step(Event::Watched(VmiOutcome::Deleted));
    assert_halt(run.step(Event::Finalized));
    assert_halt(run.step(Event::Start));
    assert_halt(run.step(Event::ApiFailure("late".to_string())));
    assert_eq!(run.stage, Stage::Done(VmiOutcome::Deleted));

    let mut aborted = new_run();
    aborted.step(Event::ApiFailure("boom".to_string()));
    assert_halt(aborted.step(Event::Start));
    assert_eq!(aborted.stage, Stage::Aborted);
}

#[test]
fn an_event_out_of_turn_ends_the_run() {
    let mut run = new_run();
    match run.step(Event::Created) {
        Action::Exit { result: Err(RunError::UnexpectedEvent) } => {}
        other => panic!("unexpected: {:?}", other),
    }
    assert_eq!(run.stage, Stage::Aborted);

    let mut run = new_run();
    run.step(Event::Start);
    match run.step(Event::Signal(Signal::Terminate)) {
        Action::Exit { result: Err(RunError::UnexpectedEvent) } => {}
        other => panic!("unexpected: {:?}", other),
    }

    let mut run = watching();
    match run.step(Event::Finalized) {
        Action::Exit { result: Err(RunError::UnexpectedEvent) } => {}
        other => panic!("unexpected: {:?}", other),
    }
}

#[test]
fn cleanup_is_asked_for_once() {
    let mut run = watching();
    let mut deletes = 0;
    for event in [
        Event::Watched(VmiOutcome::Failed),
        Event::Finalized,
        Event::Finalized,
        Event::Watched(VmiOutcome::Failed),
    ] {
        if let Action::DeleteAndFinalize { .. } = run.step(event) {
            deletes += 1;
        }
    }
    assert_eq!(deletes, 1);
}

#[test]
fn an_instance_that_is_gone_counts_as_deleted() {
    let mut run = new_run();
    assert_lookup(run.step(Event::Start));
    assert_delete(run.step(Event::Lookup { found: true }));
    assert_fetch(run.step(Event::Absent));
    assert_eq!(run.stage, Stage::Creating { submitted: false });

    let mut run = watching();
    assert_delete(run.step(Event::Watched(VmiOutcome::Succeeded)));
    match run.step(Event::Absent) {
        Action::Exit { result } => assert!(result.is_ok()),
        other => panic!("unexpected: {:?}", other),
    }
    assert_eq!(run.stage, Stage::Done(VmiOutcome::Succeeded));
}

fn kinds(actions: &Vec<Action>) -> Vec<&'static str> {
    actions
        .iter()
        .map(|action| match action {
            Action::Lookup { .. } => "lookup",
            Action::DeleteAndFinalize { .. } => "delete",
            Action::FetchTemplate { .. } => "fetch",
            Action::Create { .. } => "create",
            Action::Watch { .. } => "watch",
            Action::Exit { .. } => "exit",
            Action::Halt => "halt",
        })
        .collect()
}

#[test]
fn a_whole_run_from_a_list_of_answers() {
    let mut run = new_run();
    let actions = run.run(vec![
        Event::Start,
        Event::Lookup { found: true },
        Event::Finalized,
        Event::Template(template()),
        Event::Created,
        Event::Watched(VmiOutcome::Succeeded),
        Event::Finalized,
        Event::Finalized,
    ]);
    assert_eq!(
        kinds(&actions),
        vec!["lookup", "delete", "fetch", "create", "watch", "delete", "exit", "halt"]
    );
    assert_eq!(run.stage, Stage::Done(VmiOutcome::Succeeded));
    match &actions[6] {
        Action::Exit { result } => assert_eq!(exit_code(result), 0),
        other => panic!("unexpected: {:?}", other),
    }
}

#[test]
fn a_run_without_answers_asks_nothing() {
    let mut run = new_run();
    assert!(run.run(Vec::new()).is_empty());
    assert_eq!(run.stage, Stage::Init);
}

#[test]
fn a_run_that_fails_midway_asks_nothing_more() {
    let mut run = new_run();
    let actions = run.run(vec![
        Event::Start,
        Event::Lookup { found: false },
        Event::ApiFailure("template not found".to_string()),
        Event::Template(template()),
        Event::Created,
    ]);
    assert_eq!(kinds(&actions), vec!["lookup", "fetch", "exit", "halt", "halt"]);
    assert_eq!(run.stage, Stage::Aborted);
}

#[test]
fn a_signal_during_the_watch_in_a_whole_run() {
    let mut run = new_run();
    let actions = run.run(vec![
        Event::Start,
        Event::Lookup { found: false },
        Event::Template(template()),
        Event::Created,
        Event::Signal(Signal::Interrupt),
        Event::Finalized,
    ]);
    assert_eq!(kinds(&actions), vec!["lookup", "fetch", "create", "watch", "delete", "exit"]);
    match &actions[5] {
        Action::Exit { result } => assert_eq!(exit_code(result), 1),
        other => panic!("unexpected: {:?}", other),
    }
    assert_eq!(run.stage, Stage::Done(VmiOutcome::WatchInterrupted));
}
