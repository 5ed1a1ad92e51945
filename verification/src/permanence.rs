//! The permanence ledger: the four states of a target and the naming of markers.
use vstd::prelude::*;
use crate::digest::{hex_encode, marker_name, raw_bytes, sha256_digest};
use crate::paths::{join, path_join};

verus! {

/// State of a target path that should be managed declaratively.
#[derive(Clone, Copy, Debug, PartialEq, Eq, Structural)]
pub enum TargetStatus {
    /// No marker, and nothing at the target: the command has yet to run.
    Conceptual,
    /// Something is at the target, but no marker says that the command made it.
    Invalid,
    /// A marker says the command succeeded, but nothing is at the target any more.
    Missing,
    /// A marker stands and the target is there.
    Tangible,
}

impl TargetStatus {
    /// The state that two probes amount to: whether the marker stands, and
    /// whether anything resolves at the target.
    pub open spec fn of(marker: bool, target: bool) -> TargetStatus {
        if marker {
            if target {
                TargetStatus::Tangible
            } else {
                TargetStatus::Missing
            }
        } else {
            if target {
                TargetStatus::Invalid
            } else {
                TargetStatus::Conceptual
            }
        }
    }

    /// Whether this state says that the marker stands.
    pub open spec fn marked(self) -> bool {
        self == TargetStatus::Missing || self == TargetStatus::Tangible
    }

    /// Whether this state says that something is at the target.
    pub open spec fn present(self) -> bool {
        self == TargetStatus::Invalid || self == TargetStatus::Tangible
    }

    /// Combines the two probes into a state. Both are taken as they were just
    /// read; nothing is remembered between calls.
    pub fn classify(marker: bool, target: bool) -> (status: TargetStatus)
        ensures
            status == TargetStatus::of(marker, target),
    {
        match (marker, target) {
            (false, false) => TargetStatus::Conceptual,
            (false, true) => TargetStatus::Invalid,
            (true, false) => TargetStatus::Missing,
            (true, true) => TargetStatus::Tangible,
        }
    }
}

/// The state is read from the two probes and from nothing else. Each of the
/// four outcomes of the probes has its own state: conceptual without marker
/// and target, invalid with the target alone, missing with the marker alone,
/// tangible with both. So the same probes give the same state however often
/// they are read, different probes give different states, and a state tells
/// both probes.
pub proof fn status_tells_both_probes(
    marker: bool,
    target: bool,
    other_marker: bool,
    other_target: bool,
    status: TargetStatus,
)
    ensures
        TargetStatus::of(false, false) == TargetStatus::Conceptual,
        TargetStatus::of(false, true) == TargetStatus::Invalid,
        TargetStatus::of(true, false) == TargetStatus::Missing,
        TargetStatus::of(true, true) == TargetStatus::Tangible,
        TargetStatus::of(marker, target) == TargetStatus::of(other_marker, other_target) <==> (
        marker == other_marker && target == other_target),
        TargetStatus::of(marker, target).marked() == marker,
        TargetStatus::of(marker, target).present() == target,
        TargetStatus::of(status.marked(), status.present()) == status,
{
}

/// What went wrong when the filesystem was asked to do something.
#[derive(Clone, Copy, Debug, PartialEq, Eq, Structural)]
pub enum IoKind {
    /// Nothing was found at the path.
    NotFound,
    /// Something is at the path already.
    AlreadyExists,
    /// Anything else: permission denied, a read-only filesystem, a full disk.
    Other,
}

/// A failed filesystem operation: what kind of failure, and the system's words.
#[derive(Clone, Debug, PartialEq, Eq)]
pub struct IoFault {
    pub kind: IoKind,
    pub detail: String,
}

/// A failed filesystem operation as plain values.
pub struct IoFaultView {
    pub kind: IoKind,
    pub detail: Seq<char>,
}

impl View for IoFault {
    type V = IoFaultView;

    open spec fn view(&self) -> IoFaultView {
        IoFaultView { kind: self.kind, detail: self.detail@ }
    }
}

/// The outcome of a filesystem operation as plain values.
pub open spec fn outcome_view(outcome: Result<(), IoFault>) -> Result<(), IoFaultView> {
    match outcome {
        Ok(()) => Ok(()),
        Err(fault) => Err(fault@),
    }
}

/// The filesystem operation that a ledger failed at.
#[derive(Clone, Copy, Debug, PartialEq, Eq, Structural)]
pub enum LedgerOperation {
    /// Creating the marker.
    Link,
    /// Removing the marker.
    Remove,
}

/// A ledger could not write or remove a marker.
#[derive(Clone, Debug, PartialEq, Eq)]
pub struct LedgerError {
    /// What the ledger was doing.
    pub operation: LedgerOperation,
    /// Path of the marker.
    pub marker: String,
    /// The target that the marker stands for.
    pub target: String,
    /// The system's words.
    pub detail: String,
}

/// A ledger failure as plain values.
pub struct LedgerErrorView {
    pub operation: LedgerOperation,
    pub marker: Seq<char>,
    pub target: Seq<char>,
    pub detail: Seq<char>,
}

impl View for LedgerError {
    type V = LedgerErrorView;

    open spec fn view(&self) -> LedgerErrorView {
        LedgerErrorView {
            operation: self.operation,
            marker: self.marker@,
            target: self.target@,
            detail: self.detail@,
        }
    }
}

/// What a ledger offers to whoever reconciles targets. A ledger may keep its
/// markers anywhere; the answers are read fresh on every call, since others
/// may change either side between two calls.
pub trait Permanence {
    /// The state of the target at `path`, from two probes made now.
    fn target_status(&self, path: &str) -> TargetStatus;

    /// Records that the command for `path` was seen to succeed.
    fn observe_success(&self, path: &str) -> Result<(), LedgerError>;

    /// Removes the record for `path`; no record is no failure.
    fn forget_about(&self, path: &str) -> Result<(), LedgerError>;
}

/// The ledger that keeps one symbolic link per target in a single flat
/// directory. The link is named by the target's marker name and points at the
/// target; that it is there is all it says.
///
/// This type knows where a marker lives and how to read what the filesystem
/// answered. Creating, removing and probing the link is the caller's part.
#[derive(Clone, Copy, Debug)]
pub struct SymlinkPermanence<'a> {
    dir: &'a str,
}

/// The path of the marker for `target` in the ledger directory `dir`.
pub open spec fn marker_path(dir: Seq<char>, target: Seq<char>) -> Seq<char> {
    path_join(dir, marker_name(target))
}

/// What an attempt to create the marker for `target` amounts to. A link that
/// was made is a success. So is a marker that stood there already: the name
/// fixes what it stands for, so it is the marker that was to be written. Any
/// other failure is the ledger's failure, with the marker and the target.
pub open spec fn observed(dir: Seq<char>, target: Seq<char>, linked: Result<(), IoFaultView>) -> Result<
    (),
    LedgerErrorView,
> {
    match linked {
        Ok(()) => Ok(()),
        Err(fault) => if fault.kind == IoKind::AlreadyExists {
            Ok(())
        } else {
            Err(
                LedgerErrorView {
                    operation: LedgerOperation::Link,
                    marker: marker_path(dir, target),
                    target,
                    detail: fault.detail,
                },
            )
        },
    }
}

/// What an attempt to remove the marker for `target` amounts to. A marker
/// that was removed is a success, and so is one that was not there. Any other
/// failure is the ledger's failure, with the marker and the target.
pub open spec fn forgotten(dir: Seq<char>, target: Seq<char>, removed: Result<(), IoFaultView>) -> Result<
    (),
    LedgerErrorView,
> {
    match removed {
        Ok(()) => Ok(()),
        Err(fault) => if fault.kind == IoKind::NotFound {
            Ok(())
        } else {
            Err(
                LedgerErrorView {
                    operation: LedgerOperation::Remove,
                    marker: marker_path(dir, target),
                    target,
                    detail: fault.detail,
                },
            )
        },
    }
}

/// The result of a ledger operation as plain values.
pub open spec fn ledger_view(result: Result<(), LedgerError>) -> Result<(), LedgerErrorView> {
    match result {
        Ok(()) => Ok(()),
        Err(error) => Err(error@),
    }
}

impl<'a> SymlinkPermanence<'a> {
    /// The directory that holds the markers.
    pub closed spec fn dir(&self) -> Seq<char> {
        self.dir@
    }

    /// The ledger that keeps its markers in `dir`.
    pub fn new(dir: &'a str) -> (ledger: SymlinkPermanence<'a>)
        ensures
            ledger.dir() == dir@,
    {
        SymlinkPermanence { dir }
    }

    /// The name of the marker for the target at `path`.
    pub fn symlink_name(&self, path: &str) -> (name: String)
        ensures
            name@ == marker_name(path@),
            name@.len() == 64,
    {
        let bytes = raw_bytes(path);
        let digest = sha256_digest(bytes.as_slice());
        hex_encode(digest.as_slice())
    }

    /// The path of the marker for the target at `path`.
    pub fn symlink(&self, path: &str) -> (marker: String)
        ensures
            marker@ == marker_path(self.dir(), path@),
    {
        let name = self.symlink_name(path);
        join(self.dir, name.as_str())
    }

    /// Reads the outcome of creating the marker for the target at `path`,
    /// that is of linking [`Self::symlink`] to `path`.
    pub fn observe_success(&self, path: &str, linked: Result<(), IoFault>) -> (result: Result<
        (),
        LedgerError,
    >)
        ensures
            ledger_view(result) == observed(self.dir(), path@, outcome_view(linked)),
    {
        match linked {
            Ok(()) => Ok(()),
            Err(fault) => match fault.kind {
                IoKind::AlreadyExists => Ok(()),
                _ => Err(
                    LedgerError {
                        operation: LedgerOperation::Link,
                        marker: self.symlink(path),
                        target: path.to_owned(),
                        detail: fault.detail,
                    },
                ),
            },
        }
    }

    /// Reads the outcome of removing the marker for the target at `path`,
    /// that is of removing the link at [`Self::symlink`].
    pub fn forget_about(&self, path: &str, removed: Result<(), IoFault>) -> (result: Result<
        (),
        LedgerError,
    >)
        ensures
            ledger_view(result) == forgotten(self.dir(), path@, outcome_view(removed)),
    {
        match removed {
            Ok(()) => Ok(()),
            Err(fault) => match fault.kind {
                IoKind::NotFound => Ok(()),
                _ => Err(
                    LedgerError {
                        operation: LedgerOperation::Remove,
                        marker: self.symlink(path),
                        target: path.to_owned(),
                        detail: fault.detail,
                    },
                ),
            },
        }
    }
}

} // verus!
