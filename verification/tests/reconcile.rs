use std::cell::{Cell, RefCell};
use std::collections::HashSet;
use tangible::config::ConceptualPath;
use tangible::permanence::{LedgerError, LedgerOperation, Permanence, TargetStatus};
use tangible::tangible::{Action, Event, Invocation, Stage, TangiblePath, UpError};

/// Markers and files kept in memory, and a count of the commands started.
struct Memory {
    markers: RefCell<HashSet<String>>,
    files: RefCell<HashSet<String>>,
    read_only: bool,
    spawned: Cell<usize>,
}

impl Memory {
    fn new() -> Memory {
        Memory {
            markers: RefCell::new(HashSet::new()),
            files: RefCell::new(HashSet::new()),
            read_only: false,
            spawned: Cell::new(0),
        }
    }

    fn read_only() -> Memory {
        Memory { read_only: true, ..Memory::new() }
    }

    fn holds(&self, path: &str) -> bool {
        self.files.borrow().contains(path)
    }

    fn refusal(path: &str, operation: LedgerOperation) -> LedgerError {
        LedgerError {
            operation,
            marker: format!("memory:{}", path),
            target: path.to_string(),
            detail: "Read-only file system (os error 30)".to_string(),
        }
    }
}

impl Permanence for Memory {
    fn target_status(&self, path: &str) -> TargetStatus {
        TargetStatus::classify(self.markers.borrow().contains(path), self.holds(path))
    }

    fn observe_success(&self, path: &str) -> Result<(), LedgerError> {
        if self.read_only {
            return Err(Memory::refusal(path, LedgerOperation::Link));
        }
        self.markers.borrow_mut().insert(path.to_string());
        Ok(())
    }

    fn forget_about(&self, path: &str) -> Result<(), LedgerError> {
        if self.read_only {
            return Err(Memory::refusal(path, LedgerOperation::Remove));
        }
        self.markers.borrow_mut().remove(path);
        Ok(())
    }
}

/// What a command does when it is started.
#[derive(Clone, Copy)]
enum Command {
    /// Creates the file that the variable `TARGET` names and exits with 0.
    Touch,
    /// Exits with 0 and creates nothing.
    Idle,
    /// Exits with this code and creates nothing.
    Fail(i32),
    /// Creates the file, then exits with this code.
    TouchAndFail(i32),
    /// Is ended by a signal.
    Killed,
}

fn value_of(invocation: &Invocation, name: &str) -> Option<String> {
    let mut value = None;
    for (key, text) in &invocation.env {
        if key == name {
            value = Some(text.clone());
        }
    }
    value
}

fn start(memory: &Memory, command: Command, invocation: &Invocation) -> Option<i32> {
    memory.spawned.set(memory.spawned.get() + 1);
    let touch = |memory: &Memory| {
        if let Some(target) = value_of(invocation, "TARGET") {
            memory.files.borrow_mut().insert(target);
        }
    };
    match command {
        Command::Touch => {
            touch(memory);
            Some(0)
        }
        Command::Idle => Some(0),
        Command::Fail(code) => Some(code),
        Command::TouchAndFail(code) => {
            touch(memory);
            Some(code)
        }
        Command::Killed => None,
    }
}

/// Reconciles one target: carries out each step and reports it.
fn materialize<'a>(
    memory: &Memory,
    path: &'a ConceptualPath,
    command: Command,
) -> Result<TangiblePath<'a>, UpError> {
    let mut turn = TangiblePath::up(path, Stage::Fresh, Event::Begun);
    loop {
        let (stage, action) = turn;
        let event = match action {
            Action::Classify => Event::Classified(memory.target_status(&path.target)),
            Action::Spawn(invocation) => Event::Exited(start(memory, command, &invocation)),
            Action::Probe => Event::Probed(memory.holds(&path.target)),
            Action::Record => Event::Recorded(memory.observe_success(&path.target)),
            Action::Finish(result) => return result,
        };
        turn = TangiblePath::up(path, stage, event);
    }
}

fn out_txt() -> ConceptualPath {
    ConceptualPath {
        target: "/tmp/out.txt".to_string(),
        target_env_var: "TARGET".to_string(),
        command: "touch".to_string(),
        tags: Vec::new(),
        env: Vec::new(),
    }
}

fn pair(name: &str, value: &str) -> (String, String) {
    (name.to_string(), value.to_string())
}

#[test]
fn a_conceptual_target_is_brought_up() {
    let memory = Memory::new();
    let path = out_txt();
    assert_eq!(memory.target_status("/tmp/out.txt"), TargetStatus::Conceptual);
    let result = materialize(&memory, &path, Command::Touch);
    assert_eq!(result, Ok(TangiblePath { conceptual_path: &path }));
    assert!(memory.holds("/tmp/out.txt"));
    assert_eq!(memory.target_status("/tmp/out.txt"), TargetStatus::Tangible);
    assert_eq!(memory.spawned.get(), 1);
}

#[test]
fn a_command_that_creates_nothing_fails_the_postcondition() {
    let memory = Memory::new();
    let path = out_txt();
    let result = materialize(&memory, &path, Command::Idle);
    assert_eq!(
        result,
        Err(UpError::PostConditionFailure { target: "/tmp/out.txt".to_string() })
    );
    assert_eq!(memory.target_status("/tmp/out.txt"), TargetStatus::Conceptual);
    assert!(memory.markers.borrow().is_empty());
    assert_eq!(memory.spawned.get(), 1);
}

#[test]
fn a_target_without_marker_is_refused() {
    let memory = Memory::new();
    memory.files.borrow_mut().insert("/tmp/out.txt".to_string());
    let path = out_txt();
    assert_eq!(memory.target_status("/tmp/out.txt"), TargetStatus::Invalid);
    let result = materialize(&memory, &path, Command::Touch);
    assert_eq!(
        result,
        Err(UpError::UnresolvedState {
            status: TargetStatus::Invalid,
            target: "/tmp/out.txt".to_string(),
        })
    );
    assert_eq!(memory.spawned.get(), 0);
    assert!(memory.markers.borrow().is_empty());
    assert_eq!(memory.target_status("/tmp/out.txt"), TargetStatus::Invalid);
}

#[test]
fn a_marker_without_target_is_refused() {
    let memory = Memory::new();
    memory.markers.borrow_mut().insert("/tmp/out.txt".to_string());
    let path = out_txt();
    assert_eq!(memory.target_status("/tmp/out.txt"), TargetStatus::Missing);
    let result = materialize(&memory, &path, Command::Touch);
    assert_eq!(
        result,
        Err(UpError::UnresolvedState {
            status: TargetStatus::Missing,
            target: "/tmp/out.txt".to_string(),
        })
    );
    assert_eq!(memory.spawned.get(), 0);
    assert!(!memory.holds("/tmp/out.txt"));
    assert_eq!(memory.target_status("/tmp/out.txt"), TargetStatus::Missing);
}

#[test]
fn reconciling_twice_runs_the_command_once() {
    let memory = Memory::new();
    let path = out_txt();
    assert!(materialize(&memory, &path, Command::Touch).is_ok());
    assert_eq!(memory.spawned.get(), 1);
    let markers = memory.markers.borrow().clone();
    let files = memory.files.borrow().clone();
    let again = materialize(&memory, &path, Command::Fail(1));
    assert_eq!(again, Ok(TangiblePath { conceptual_path: &path }));
    assert_eq!(memory.spawned.get(), 1);
    assert_eq!(*memory.markers.borrow(), markers);
    assert_eq!(*memory.files.borrow(), files);
}

#[test]
fn a_failed_command_leaves_no_mark() {
    let memory = Memory::new();
    let path = out_txt();
    let result = materialize(&memory, &path, Command::Fail(1));
    assert_eq!(
        result,
        Err(UpError::CommandFailure {
            code: Some(1),
            command: Invocation {
                program: "touch".to_string(),
                env: vec![pair("TARGET", "/tmp/out.txt")],
            },
        })
    );
    assert!(memory.markers.borrow().is_empty());
    assert_eq!(memory.target_status("/tmp/out.txt"), TargetStatus::Conceptual);
}

#[test]
fn a_failed_command_may_be_tried_again() {
    let memory = Memory::new();
    let path = out_txt();
    assert!(materialize(&memory, &path, Command::Fail(2)).is_err());
    assert!(materialize(&memory, &path, Command::Touch).is_ok());
    assert_eq!(memory.spawned.get(), 2);
    assert_eq!(memory.target_status("/tmp/out.txt"), TargetStatus::Tangible);
}

#[test]
fn a_failed_command_that_made_the_target_leaves_it_invalid() {
    let memory = Memory::new();
    let path = out_txt();
    let result = materialize(&memory, &path, Command::TouchAndFail(3));
    assert!(matches!(result, Err(UpError::CommandFailure { code: Some(3), .. })));
    assert!(memory.markers.borrow().is_empty());
    assert_eq!(memory.target_status("/tmp/out.txt"), TargetStatus::Invalid);
}

#[test]
fn a_command_ended_by_a_signal_has_failed() {
    let memory = Memory::new();
    let path = out_txt();
    let result = materialize(&memory, &path, Command::Killed);
    assert!(matches!(result, Err(UpError::CommandFailure { code: None, .. })));
    assert!(memory.markers.borrow().is_empty());
}

#[test]
fn a_ledger_that_cannot_record_fails_the_reconciliation() {
    let memory = Memory::read_only();
    let path = out_txt();
    let result = materialize(&memory, &path, Command::Touch);
    assert_eq!(
        result,
        Err(UpError::LedgerIo(LedgerError {
            operation: LedgerOperation::Link,
            marker: "memory:/tmp/out.txt".to_string(),
            target: "/tmp/out.txt".to_string(),
            detail: "Read-only file system (os error 30)".to_string(),
        }))
    );
    assert_eq!(memory.spawned.get(), 1);
    assert_eq!(memory.target_status("/tmp/out.txt"), TargetStatus::Invalid);
}

#[test]
fn forgetting_a_tangible_target_leaves_it_invalid() {
    let memory = Memory::new();
    let path = out_txt();
    assert!(materialize(&memory, &path, Command::Touch).is_ok());
    assert_eq!(memory.forget_about("/tmp/out.txt"), Ok(()));
    assert_eq!(memory.target_status("/tmp/out.txt"), TargetStatus::Invalid);
    assert_eq!(memory.forget_about("/tmp/out.txt"), Ok(()));
    assert_eq!(memory.target_status("/tmp/out.txt"), TargetStatus::Invalid);
}

#[test]
fn the_steps_of_a_successful_reconciliation() {
    let path = out_txt();
    let invocation = Invocation {
        program: "touch".to_string(),
        env: vec![pair("TARGET", "/tmp/out.txt")],
    };
    assert_eq!(
        TangiblePath::up(&path, Stage::Fresh, Event::Begun),
        (Stage::Classifying, Action::Classify)
    );
    assert_eq!(
        TangiblePath::up(&path, Stage::Classifying, Event::Classified(TargetStatus::Conceptual)),
        (Stage::Running, Action::Spawn(invocation))
    );
    assert_eq!(
        TangiblePath::up(&path, Stage::Running, Event::Exited(Some(0))),
        (Stage::Verifying, Action::Probe)
    );
    assert_eq!(
        TangiblePath::up(&path, Stage::Verifying, Event::Probed(true)),
        (Stage::Recording, Action::Record)
    );
    assert_eq!(
        TangiblePath::up(&path, Stage::Recording, Event::Recorded(Ok(()))),
        (Stage::Finished, Action::Finish(Ok(TangiblePath { conceptual_path: &path })))
    );
}

#[test]
fn a_tangible_target_needs_no_step() {
    let path = out_txt();
    assert_eq!(
        TangiblePath::up(&path, Stage::Classifying, Event::Classified(TargetStatus::Tangible)),
        (Stage::Finished, Action::Finish(Ok(TangiblePath { conceptual_path: &path })))
    );
}

#[test]
fn a_report_out_of_turn_ends_the_reconciliation() {
    let path = out_txt();
    let stages = [
        Stage::Fresh,
        Stage::Classifying,
        Stage::Running,
        Stage::Verifying,
        Stage::Recording,
        Stage::Finished,
    ];
    for (at, stage) in stages.iter().enumerate() {
        let reports = vec![
            Event::Begun,
            Event::Classified(TargetStatus::Conceptual),
            Event::Exited(Some(0)),
            Event::Probed(true),
            Event::Recorded(Ok(())),
        ];
        for (of, report) in reports.into_iter().enumerate() {
            let turn = TangiblePath::up(&path, *stage, report);
            if at == of {
                assert!(!matches!(turn.1, Action::Finish(Err(UpError::OutOfTurn { .. }))));
            } else {
                assert_eq!(
                    turn,
                    (Stage::Finished, Action::Finish(Err(UpError::OutOfTurn { stage: *stage })))
                );
            }
        }
    }
}

#[test]
fn the_command_gets_the_target_first_and_the_rest_in_order() {
    let path = ConceptualPath {
        target: "/srv/data".to_string(),
        target_env_var: "DESTINATION".to_string(),
        command: "/usr/bin/make-data".to_string(),
        tags: vec!["nightly".to_string()],
        env: vec![pair("MODE", "fast"), pair("LANG", "C")],
    };
    assert_eq!(
        Invocation::of(&path),
        Invocation {
            program: "/usr/bin/make-data".to_string(),
            env: vec![pair("DESTINATION", "/srv/data"), pair("MODE", "fast"), pair("LANG", "C")],
        }
    );
}

#[test]
fn a_further_variable_takes_the_place_of_the_target_variable() {
    let path = ConceptualPath {
        env: vec![pair("TARGET", "/elsewhere")],
        ..out_txt()
    };
    let invocation = Invocation::of(&path);
    assert_eq!(
        invocation.env,
        vec![pair("TARGET", "/tmp/out.txt"), pair("TARGET", "/elsewhere")]
    );
    assert_eq!(value_of(&invocation, "TARGET"), Some("/elsewhere".to_string()));
    assert_eq!(value_of(&invocation, "HOME"), None);
}

#[test]
fn tags_do_not_change_the_steps() {
    let plain = out_txt();
    let tagged = ConceptualPath { tags: vec!["a".to_string(), "b".to_string()], ..out_txt() };
    assert_eq!(Invocation::of(&plain), Invocation::of(&tagged));
}
