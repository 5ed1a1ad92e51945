//! A world to reason in: what holds of reconciliation when every step is
//! carried out as asked.
//!
//! The library never touches the ledger or the filesystem; it says what to do
//! and reads what came of it. What that amounts to in the end depends on the
//! world doing as it is told. This module writes that world down, as far as
//! reconciliation can see it, and proves what then follows from the rules in
//! [`crate::permanence`] and [`crate::tangible`].
use vstd::prelude::*;
use crate::config::ConceptualPathView;
use crate::permanence::{
    forgotten, observed, IoFaultView, IoKind, LedgerErrorView, TargetStatus,
};
use crate::tangible::{exit_ok, next, ActionView, EventView, Stage, UpErrorView};

verus! {

/// What reconciliation can see of the world: for which targets a marker
/// stands, and at which targets something resolves. A marker is taken for the
/// target it is named after.
pub struct World {
    pub marked: Set<Seq<char>>,
    pub present: Set<Seq<char>>,
}

impl World {
    /// The state of `target`, as two probes made now would give it.
    pub open spec fn status(self, target: Seq<char>) -> TargetStatus {
        TargetStatus::of(self.marked.contains(target), self.present.contains(target))
    }

    /// The world once the marker for `target` stands.
    pub open spec fn mark(self, target: Seq<char>) -> World {
        World { marked: self.marked.insert(target), present: self.present }
    }

    /// The world once the marker for `target` is gone.
    pub open spec fn unmark(self, target: Seq<char>) -> World {
        World { marked: self.marked.remove(target), present: self.present }
    }
}

/// The state of a target is a matter of the world alone: read twice in one
/// world it is the same both times, and it changes only when the target's
/// marker or the target itself comes or goes.
pub proof fn status_is_pure(first: World, second: World, target: Seq<char>)
    ensures
        first == second ==> first.status(target) == second.status(target),
        first.status(target) == second.status(target) <==> (first.marked.contains(target)
            == second.marked.contains(target) && first.present.contains(target)
            == second.present.contains(target)),
{
}

/// Whether `linked` and `after` are what an attempt to create the marker for
/// `target` can make of `before`: either the marker is made, or the attempt
/// fails and changes nothing; and it fails for a marker standing already only
/// where one does.
pub open spec fn links(
    before: World,
    target: Seq<char>,
    linked: Result<(), IoFaultView>,
    after: World,
) -> bool {
    match linked {
        Ok(()) => after == before.mark(target),
        Err(fault) => after == before && (fault.kind == IoKind::AlreadyExists
            ==> before.marked.contains(target)),
    }
}

/// Whether `removed` and `after` are what an attempt to remove the marker for
/// `target` can make of `before`: either the marker is removed, or the
/// attempt fails and changes nothing; and it fails for want of a marker only
/// where there is none.
pub open spec fn unlinks(
    before: World,
    target: Seq<char>,
    removed: Result<(), IoFaultView>,
    after: World,
) -> bool {
    match removed {
        Ok(()) => after == before.unmark(target),
        Err(fault) => after == before && (fault.kind == IoKind::NotFound
            ==> !before.marked.contains(target)),
    }
}

/// Recording a success and forgetting it again. Once the ledger reports that
/// it recorded the success for a target, the target is tangible if it is
/// there (and missing if it is not). Once the ledger then reports that it
/// forgot the target, the target is conceptual if it is not there, and
/// invalid if it is. Neither operation touches another target's marker, and
/// one that reports a failure has changed nothing.
pub proof fn record_then_forget(
    dir: Seq<char>,
    target: Seq<char>,
    start: World,
    linked: Result<(), IoFaultView>,
    recorded: World,
    removed: Result<(), IoFaultView>,
    cleared: World,
)
    requires
        links(start, target, linked, recorded),
        unlinks(recorded, target, removed, cleared),
    ensures
        observed(dir, target, linked) is Ok ==> recorded.status(target) == (if recorded.present.contains(
            target,
        ) {
            TargetStatus::Tangible
        } else {
            TargetStatus::Missing
        }),
        observed(dir, target, linked) is Err ==> recorded == start,
        forgotten(dir, target, removed) is Ok ==> cleared.status(target) == (if cleared.present.contains(
            target,
        ) {
            TargetStatus::Invalid
        } else {
            TargetStatus::Conceptual
        }),
        forgotten(dir, target, removed) is Err ==> cleared == recorded,
        forall|other: Seq<char>|
            other != target ==> (cleared.marked.contains(other) <==> start.marked.contains(other)),
        cleared.present == start.present,
{
}

/// Forgetting twice is forgetting once: when the marker for a target is
/// gone, another attempt to remove it finds nothing, reports success and
/// leaves the world as it is.
pub proof fn forget_is_idempotent(
    dir: Seq<char>,
    target: Seq<char>,
    before: World,
    removed: Result<(), IoFaultView>,
    after: World,
)
    requires
        !before.marked.contains(target),
        unlinks(before, target, removed, after),
        removed matches Err(fault) ==> fault.kind == IoKind::NotFound,
    ensures
        forgotten(dir, target, removed) is Ok,
        after.marked == before.marked,
        after.present == before.present,
{
    assert(before.marked.remove(target) =~= before.marked);
}

/// How the world answers in the course of one reconciliation.
pub struct Course {
    /// The code with which the command exits, if it is started.
    pub code: Option<i32>,
    /// The targets at which something resolves once the command has exited.
    pub present_after: Set<Seq<char>>,
    /// What the ledger answers if it is asked to record the success.
    pub recorded: Result<(), LedgerErrorView>,
}

/// What a reconciliation leaves: the world, the result, and how often the
/// command was started.
pub struct Run {
    pub world: World,
    pub result: Result<ConceptualPathView, UpErrorView>,
    pub spawned: nat,
}

/// Carries out `action` and every step that follows it, each as asked, for
/// at most `turns` steps. The ledger is asked for the state of the target and
/// the filesystem for its presence as the world stands at that moment. The
/// command leaves the markers alone. The ledger, asked to record, either
/// makes the marker or fails and changes nothing.
pub open spec fn carry_out(
    path: ConceptualPathView,
    stage: Stage,
    action: ActionView,
    world: World,
    course: Course,
    turns: nat,
) -> Run
    decreases turns,
{
    if turns == 0 {
        Run { world, result: Err(UpErrorView::OutOfTurn { stage }), spawned: 0 }
    } else {
        match action {
            ActionView::Finish(result) => Run { world, result, spawned: 0 },
            ActionView::Classify => {
                let turn = next(path, stage, EventView::Classified(world.status(path.target)));
                carry_out(path, turn.0, turn.1, world, course, (turns - 1) as nat)
            },
            ActionView::Spawn(_) => {
                let after = World { marked: world.marked, present: course.present_after };
                let turn = next(path, stage, EventView::Exited(course.code));
                let rest = carry_out(path, turn.0, turn.1, after, course, (turns - 1) as nat);
                Run { world: rest.world, result: rest.result, spawned: rest.spawned + 1 }
            },
            ActionView::Probe => {
                let turn = next(
                    path,
                    stage,
                    EventView::Probed(world.present.contains(path.target)),
                );
                carry_out(path, turn.0, turn.1, world, course, (turns - 1) as nat)
            },
            ActionView::Record => {
                let after = if course.recorded is Ok {
                    world.mark(path.target)
                } else {
                    world
                };
                let turn = next(path, stage, EventView::Recorded(course.recorded));
                carry_out(path, turn.0, turn.1, after, course, (turns - 1) as nat)
            },
        }
    }
}

/// One whole reconciliation of `path` in `world`, from the first report to
/// the result. No reconciliation takes more than five steps.
pub open spec fn materialize(path: ConceptualPathView, world: World, course: Course) -> Run {
    let turn = next(path, Stage::Fresh, EventView::Begun);
    carry_out(path, turn.0, turn.1, world, course, 5)
}

/// What one reconciliation comes to, state by state. A tangible target is
/// left alone. An invalid or missing one is refused and left alone. For a
/// conceptual one the command is started once; the target is recorded, and
/// then tangible, exactly when the command exits with success, the target is
/// there afterwards and the ledger records it; any failure leaves the
/// markers as they were.
pub proof fn materialize_by_status(path: ConceptualPathView, world: World, course: Course)
    ensures
        ({
            let run = materialize(path, world, course);
            let target = path.target;
            let settled = World { marked: world.marked, present: course.present_after };
            match world.status(target) {
                TargetStatus::Tangible => run == Run { world, result: Ok(path), spawned: 0 },
                TargetStatus::Invalid | TargetStatus::Missing => run == Run {
                    world,
                    result: Err(
                        UpErrorView::UnresolvedState { status: world.status(target), target },
                    ),
                    spawned: 0,
                },
                TargetStatus::Conceptual => {
                    &&& run.spawned == 1
                    &&& run.world.present == course.present_after
                    &&& if !exit_ok(course.code) {
                        &&& run.result is Err
                        &&& run.result->Err_0 is CommandFailure
                        &&& run.world == settled
                    } else if !course.present_after.contains(target) {
                        &&& run.result == Err::<ConceptualPathView, UpErrorView>(
                            UpErrorView::PostConditionFailure { target },
                        )
                        &&& run.world == settled
                    } else if course.recorded is Err {
                        &&& run.result == Err::<ConceptualPathView, UpErrorView>(
                            UpErrorView::LedgerIo(course.recorded->Err_0),
                        )
                        &&& run.world == settled
                    } else {
                        &&& run.result == Ok::<ConceptualPathView, UpErrorView>(path)
                        &&& run.world == settled.mark(target)
                        &&& run.world.status(target) == TargetStatus::Tangible
                    }
                },
            }
        }),
{
    reveal_with_fuel(carry_out, 6);
}

/// Reconciling twice runs the command once. If a conceptual target is
/// reconciled with success, it is tangible afterwards, the command was
/// started exactly once, and a second reconciliation, whatever the world
/// would answer, starts nothing, changes nothing and succeeds.
pub proof fn materialize_is_idempotent(
    path: ConceptualPathView,
    world: World,
    first: Course,
    second: Course,
)
    requires
        world.status(path.target) == TargetStatus::Conceptual,
        materialize(path, world, first).result is Ok,
    ensures
        materialize(path, world, first).spawned == 1,
        materialize(path, world, first).world.status(path.target) == TargetStatus::Tangible,
        materialize(path, materialize(path, world, first).world, second) == (Run {
            world: materialize(path, world, first).world,
            result: Ok(path),
            spawned: 0,
        }),
{
    materialize_by_status(path, world, first);
    materialize_by_status(path, materialize(path, world, first).world, second);
}

/// A failure leaves no mark. If the command does not exit with success, or
/// exits with success while nothing is at the target afterwards, then the
/// markers are what they were, none made and none removed; the
/// reconciliation fails, unless the target was tangible and the command
/// never started; and the target's state is what it was, unless the target
/// itself came or went.
pub proof fn failure_leaves_no_mark(path: ConceptualPathView, world: World, course: Course)
    requires
        !exit_ok(course.code) || !course.present_after.contains(path.target),
    ensures
        materialize(path, world, course).world.marked == world.marked,
        world.status(path.target) != TargetStatus::Tangible ==> materialize(
            path,
            world,
            course,
        ).result is Err,
        materialize(path, world, course).world.present.contains(path.target)
            == world.present.contains(path.target) ==> materialize(
            path,
            world,
            course,
        ).world.status(path.target) == world.status(path.target),
{
    materialize_by_status(path, world, course);
}

/// No reconciliation removes a marker, and none makes a marker for any
/// target but its own.
pub proof fn materialize_keeps_other_markers(
    path: ConceptualPathView,
    world: World,
    course: Course,
    other: Seq<char>,
)
    ensures
        world.marked.contains(other) ==> materialize(path, world, course).world.marked.contains(
            other,
        ),
        other != path.target ==> (materialize(path, world, course).world.marked.contains(other)
            <==> world.marked.contains(other)),
{
    materialize_by_status(path, world, course);
}

} // verus!
