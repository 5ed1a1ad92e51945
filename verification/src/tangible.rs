//! Reconciliation of one target: which step follows which.
//!
//! Bringing a target up takes work that this library does not do: reading the
//! ledger, starting the command, looking at the filesystem. So reconciliation
//! is a dialogue. [`TangiblePath::up`] is told what happened last and answers
//! with what to do next; the caller does it and reports back, until the answer
//! is [`Action::Finish`].
use vstd::prelude::*;
use crate::config::{names_unique, pair_view, pairs_view, ConceptualPath, ConceptualPathView};
use crate::permanence::{LedgerError, LedgerErrorView, TargetStatus};

verus! {

/// A target that was brought into existence, or found to be there with its
/// marker standing.
#[derive(Clone, Copy, Debug, PartialEq, Eq)]
pub struct TangiblePath<'a> {
    pub conceptual_path: &'a ConceptualPath,
}

/// A command to start: the executable, and the variables to set in its
/// environment, in this order, on top of what it inherits.
#[derive(Clone, Debug, PartialEq, Eq)]
pub struct Invocation {
    pub program: String,
    pub env: Vec<(String, String)>,
}

/// A command to start, as plain values.
pub struct InvocationView {
    pub program: Seq<char>,
    pub env: Seq<(Seq<char>, Seq<char>)>,
}

impl View for Invocation {
    type V = InvocationView;

    open spec fn view(&self) -> InvocationView {
        InvocationView { program: self.program@, env: pairs_view(self.env@) }
    }
}

/// The value that a list of assignments, made in order, leaves a variable
/// with: that of the last assignment to it, or nothing where none names it.
pub open spec fn assigned(env: Seq<(Seq<char>, Seq<char>)>, name: Seq<char>) -> Option<Seq<char>>
    decreases env.len(),
{
    if env.len() == 0 {
        None
    } else if env.last().0 == name {
        Some(env.last().1)
    } else {
        assigned(env.drop_last(), name)
    }
}

/// The command that a target description asks for. The variable that names
/// the target is set first and the further variables after it, so that one of
/// them with the same name takes its place.
pub open spec fn invocation_of(path: ConceptualPathView) -> InvocationView {
    InvocationView {
        program: path.command,
        env: seq![(path.target_env_var, path.target)] + path.env,
    }
}

/// One assignment put before others: a later one to the same variable takes
/// its place, and it stands where none does.
pub proof fn assigned_after_first(
    first: (Seq<char>, Seq<char>),
    rest: Seq<(Seq<char>, Seq<char>)>,
    name: Seq<char>,
)
    ensures
        assigned(seq![first] + rest, name) == (match assigned(rest, name) {
            Some(value) => Some(value),
            None => if first.0 == name {
                Some(first.1)
            } else {
                None
            },
        }),
    decreases rest.len(),
{
    let all = seq![first] + rest;
    if rest.len() == 0 {
        assert(all.last() == first);
        assert(all.drop_last().len() == 0);
    } else {
        assert(all.last() == rest.last());
        assert(all.drop_last() =~= seq![first] + rest.drop_last());
        assigned_after_first(first, rest.drop_last(), name);
    }
}

/// Where no variable is named twice, each assignment reaches the command
/// with the value it gives.
pub proof fn unique_names_keep_values(env: Seq<(Seq<char>, Seq<char>)>, i: int)
    requires
        names_unique(env),
        0 <= i < env.len(),
    ensures
        assigned(env, env[i].0) == Some(env[i].1),
    decreases env.len(),
{
    if i < env.len() - 1 {
        assert(env.last() == env[env.len() - 1]);
        assert(env.last().0 != env[i].0);
        unique_names_keep_values(env.drop_last(), i);
    }
}

/// The environment that the command of a target description is given, on top
/// of what it inherits: each further variable of the description with its
/// value, and the variable that names the target with the target's path,
/// unless a further variable has that name. No other variable is set.
pub proof fn invocation_environment(path: ConceptualPathView, name: Seq<char>)
    ensures
        assigned(invocation_of(path).env, name) == (match assigned(path.env, name) {
            Some(value) => Some(value),
            None => if name == path.target_env_var {
                Some(path.target)
            } else {
                None
            },
        }),
        names_unique(path.env) ==> forall|i: int|
            0 <= i < path.env.len() && path.env[i].0 == name ==> assigned(
                invocation_of(path).env,
                name,
            ) == Some(path.env[i].1),
{
    assigned_after_first((path.target_env_var, path.target), path.env, name);
    if names_unique(path.env) {
        assert forall|i: int| 0 <= i < path.env.len() && path.env[i].0 == name implies assigned(
            invocation_of(path).env,
            name,
        ) == Some(path.env[i].1) by {
            unique_names_keep_values(path.env, i);
        }
    }
}

impl Invocation {
    /// Builds the command that `path` asks for.
    pub fn of(path: &ConceptualPath) -> (invocation: Invocation)
        ensures
            invocation@ == invocation_of(path@),
    {
        let mut env: Vec<(String, String)> = Vec::new();
        env.push((path.target_env_var.clone(), path.target.clone()));
        let n = path.env.len();
        let mut i: usize = 0;
        while i < n
            invariant
                n == path.env.len(),
                i <= n,
                env.len() == i + 1,
                pair_view(env[0]) == (path.target_env_var@, path.target@),
                forall|k: int| 0 <= k < i ==> pair_view(#[trigger] env[k + 1]) == pair_view(path.env[k]),
            decreases n - i,
        {
            env.push((path.env[i].0.clone(), path.env[i].1.clone()));
            i += 1;
        }
        let invocation = Invocation { program: path.command.clone(), env };
        proof {
            let built = invocation@.env;
            let asked = invocation_of(path@).env;
            assert(built.len() == asked.len());
            assert forall|k: int| 0 <= k < built.len() implies built[k] == asked[k] by {
                if k > 0 {
                    assert(pair_view(env[(k - 1) + 1]) == pair_view(path.env[k - 1]));
                }
            }
            assert(built =~= asked);
        }
        invocation
    }
}

/// How far the reconciliation of one target has come: what the next report
/// has to be about.
#[derive(Clone, Copy, Debug, PartialEq, Eq, Structural)]
pub enum Stage {
    /// Nothing was done yet.
    Fresh,
    /// The ledger was asked for the target's state.
    Classifying,
    /// The command was started.
    Running,
    /// The command exited with success; the target is being looked for.
    Verifying,
    /// The target is there; the ledger was asked to record the success.
    Recording,
    /// Reconciliation has ended, well or badly.
    Finished,
}

/// What the caller reports.
#[derive(Debug, PartialEq, Eq)]
pub enum Event {
    /// Reconciliation is to begin.
    Begun,
    /// The ledger gave the target's state.
    Classified(TargetStatus),
    /// The command exited, with this code; with none where a signal ended it.
    Exited(Option<i32>),
    /// Whether anything resolves at the target now.
    Probed(bool),
    /// The ledger recorded the success, or failed to.
    Recorded(Result<(), LedgerError>),
}

/// A report as plain values.
pub enum EventView {
    Begun,
    Classified(TargetStatus),
    Exited(Option<i32>),
    Probed(bool),
    Recorded(Result<(), LedgerErrorView>),
}

impl View for Event {
    type V = EventView;

    open spec fn view(&self) -> EventView {
        match *self {
            Event::Begun => EventView::Begun,
            Event::Classified(status) => EventView::Classified(status),
            Event::Exited(code) => EventView::Exited(code),
            Event::Probed(found) => EventView::Probed(found),
            Event::Recorded(Ok(())) => EventView::Recorded(Ok(())),
            Event::Recorded(Err(error)) => EventView::Recorded(Err(error@)),
        }
    }
}

/// Why a target was not brought up.
#[derive(Clone, Debug, PartialEq, Eq)]
pub enum UpError {
    /// The command did not exit with success.
    CommandFailure { code: Option<i32>, command: Invocation },
    /// The command exited with success, but nothing is at the target.
    PostConditionFailure { target: String },
    /// The command did its work, but the ledger could not record it.
    LedgerIo(LedgerError),
    /// The target is in a state for which no policy is fixed: there without a
    /// marker, or gone with one. Nothing is done about it.
    UnresolvedState { status: TargetStatus, target: String },
    /// A report came that the stage did not wait for.
    OutOfTurn { stage: Stage },
}

/// A failure as plain values.
pub enum UpErrorView {
    CommandFailure { code: Option<i32>, command: InvocationView },
    PostConditionFailure { target: Seq<char> },
    LedgerIo(LedgerErrorView),
    UnresolvedState { status: TargetStatus, target: Seq<char> },
    OutOfTurn { stage: Stage },
}

impl View for UpError {
    type V = UpErrorView;

    open spec fn view(&self) -> UpErrorView {
        match *self {
            UpError::CommandFailure { code, command } => UpErrorView::CommandFailure {
                code,
                command: command@,
            },
            UpError::PostConditionFailure { target } => UpErrorView::PostConditionFailure {
                target: target@,
            },
            UpError::LedgerIo(error) => UpErrorView::LedgerIo(error@),
            UpError::UnresolvedState { status, target } => UpErrorView::UnresolvedState {
                status,
                target: target@,
            },
            UpError::OutOfTurn { stage } => UpErrorView::OutOfTurn { stage },
        }
    }
}

/// What the caller is to do next.
#[derive(Debug, PartialEq, Eq)]
pub enum Action<'a> {
    /// Ask the ledger for the target's state; report `Classified`.
    Classify,
    /// Start this command and wait for it; report `Exited`.
    Spawn(Invocation),
    /// Look whether anything resolves at the target; report `Probed`.
    Probe,
    /// Ask the ledger to record the success; report `Recorded`.
    Record,
    /// Stop: this is the result.
    Finish(Result<TangiblePath<'a>, UpError>),
}

/// A next step as plain values.
pub enum ActionView {
    Classify,
    Spawn(InvocationView),
    Probe,
    Record,
    Finish(Result<ConceptualPathView, UpErrorView>),
}

impl<'a> View for Action<'a> {
    type V = ActionView;

    open spec fn view(&self) -> ActionView {
        match *self {
            Action::Classify => ActionView::Classify,
            Action::Spawn(invocation) => ActionView::Spawn(invocation@),
            Action::Probe => ActionView::Probe,
            Action::Record => ActionView::Record,
            Action::Finish(Ok(tangible)) => ActionView::Finish(Ok(tangible.conceptual_path@)),
            Action::Finish(Err(error)) => ActionView::Finish(Err(error@)),
        }
    }
}

/// Whether an exit code means success.
pub open spec fn exit_ok(code: Option<i32>) -> bool {
    code == Some(0i32)
}

/// The rule of reconciliation: from a stage and a report to the next stage
/// and the next step.
///
/// | stage       | report                 | next stage  | next step                        |
/// |-------------|------------------------|-------------|----------------------------------|
/// | Fresh       | Begun                  | Classifying | Classify                         |
/// | Classifying | Classified(Conceptual) | Running     | Spawn the command                |
/// | Classifying | Classified(Tangible)   | Finished    | Finish with success              |
/// | Classifying | Classified(Invalid)    | Finished    | Finish with UnresolvedState      |
/// | Classifying | Classified(Missing)    | Finished    | Finish with UnresolvedState      |
/// | Running     | Exited(Some(0))        | Verifying   | Probe                            |
/// | Running     | Exited(anything else)  | Finished    | Finish with CommandFailure       |
/// | Verifying   | Probed(true)           | Recording   | Record                           |
/// | Verifying   | Probed(false)          | Finished    | Finish with PostConditionFailure |
/// | Recording   | Recorded(Ok)           | Finished    | Finish with success              |
/// | Recording   | Recorded(Err(e))       | Finished    | Finish with LedgerIo(e)          |
/// | any other pair                       | Finished    | Finish with OutOfTurn            |
pub open spec fn next(path: ConceptualPathView, stage: Stage, event: EventView) -> (
    Stage,
    ActionView,
) {
    match (stage, event) {
        (Stage::Fresh, EventView::Begun) => (Stage::Classifying, ActionView::Classify),
        (Stage::Classifying, EventView::Classified(TargetStatus::Conceptual)) => (
            Stage::Running,
            ActionView::Spawn(invocation_of(path)),
        ),
        (Stage::Classifying, EventView::Classified(TargetStatus::Tangible)) => (
            Stage::Finished,
            ActionView::Finish(Ok(path)),
        ),
        (Stage::Classifying, EventView::Classified(status)) => (
            Stage::Finished,
            ActionView::Finish(Err(UpErrorView::UnresolvedState { status, target: path.target })),
        ),
        (Stage::Running, EventView::Exited(code)) => if exit_ok(code) {
            (Stage::Verifying, ActionView::Probe)
        } else {
            (
                Stage::Finished,
                ActionView::Finish(
                    Err(UpErrorView::CommandFailure { code, command: invocation_of(path) }),
                ),
            )
        },
        (Stage::Verifying, EventView::Probed(found)) => if found {
            (Stage::Recording, ActionView::Record)
        } else {
            (
                Stage::Finished,
                ActionView::Finish(Err(UpErrorView::PostConditionFailure { target: path.target })),
            )
        },
        (Stage::Recording, EventView::Recorded(Ok(()))) => (
            Stage::Finished,
            ActionView::Finish(Ok(path)),
        ),
        (Stage::Recording, EventView::Recorded(Err(error))) => (
            Stage::Finished,
            ActionView::Finish(Err(UpErrorView::LedgerIo(error))),
        ),
        _ => (Stage::Finished, ActionView::Finish(Err(UpErrorView::OutOfTurn { stage }))),
    }
}

impl<'a> TangiblePath<'a> {
    /// One turn of reconciling `conceptual_path`: given the stage and the
    /// report of what happened last, the next stage and what to do next.
    ///
    /// A reconciliation starts at [`Stage::Fresh`] with [`Event::Begun`]. The
    /// caller carries out each step, reports its outcome together with the
    /// stage it was handed, and stops at [`Action::Finish`].
    pub fn up(conceptual_path: &'a ConceptualPath, stage: Stage, event: Event) -> (turn: (
        Stage,
        Action<'a>,
    ))
        ensures
            turn.0 == next(conceptual_path@, stage, event@).0,
            turn.1@ == next(conceptual_path@, stage, event@).1,
    {
        match (stage, event) {
            (Stage::Fresh, Event::Begun) => (Stage::Classifying, Action::Classify),
            (Stage::Classifying, Event::Classified(status)) => match status {
                TargetStatus::Conceptual => (
                    Stage::Running,
                    Action::Spawn(Invocation::of(conceptual_path)),
                ),
                TargetStatus::Tangible => (
                    Stage::Finished,
                    Action::Finish(Ok(TangiblePath { conceptual_path })),
                ),
                _ => (
                    Stage::Finished,
                    Action::Finish(
                        Err(
                            UpError::UnresolvedState {
                                status,
                                target: conceptual_path.target.clone(),
                            },
                        ),
                    ),
                ),
            },
            (Stage::Running, Event::Exited(code)) => {
                let ok = match code {
                    Some(c) => c == 0,
                    None => false,
                };
                if ok {
                    (Stage::Verifying, Action::Probe)
                } else {
                    (
                        Stage::Finished,
                        Action::Finish(
                            Err(
                                UpError::CommandFailure {
                                    code,
                                    command: Invocation::of(conceptual_path),
                                },
                            ),
                        ),
                    )
                }
            },
            (Stage::Verifying, Event::Probed(found)) => {
                if found {
                    (Stage::Recording, Action::Record)
                } else {
                    (
                        Stage::Finished,
                        Action::Finish(
                            Err(
                                UpError::PostConditionFailure {
                                    target: conceptual_path.target.clone(),
                                },
                            ),
                        ),
                    )
                }
            },
            (Stage::Recording, Event::Recorded(outcome)) => match outcome {
                Ok(()) => (Stage::Finished, Action::Finish(Ok(TangiblePath { conceptual_path }))),
                Err(error) => (Stage::Finished, Action::Finish(Err(UpError::LedgerIo(error)))),
            },
            (stage, _) => (Stage::Finished, Action::Finish(Err(UpError::OutOfTurn { stage }))),
        }
    }
}

} // verus!
