//! The course of one publish run. The run alternates between work on the
//! host, which the caller does, and decisions, which are made here: after
//! each piece of work the caller reports how it went and is told what to do
//! next.

use vstd::prelude::*;

verus! {

/// The steps of staging.
#[derive(Debug, Clone, Copy, PartialEq, Eq, Structural)]
pub enum StagingStep {
    /// Packing the source into a local archive.
    Archive,
    /// Connecting to the host.
    Connect,
    /// Sending the archive to the scratch directory.
    Upload,
    /// Unpacking the archive into the temp tree.
    Unpack,
}

/// Where a run stands.
#[derive(Debug, Clone, Copy, PartialEq, Eq, Structural)]
pub enum Stage {
    Idle,
    Validating,
    Staging(StagingStep),
    Diffing,
    Planning,
    Executing,
    Cleanup,
    Done,
}

/// The kinds of failure that end a run.
#[derive(Debug, Clone, Copy, PartialEq, Eq, Structural)]
pub enum Failure {
    /// The settings or the source were turned down.
    Validation,
    /// The host could not be reached.
    Connection,
    /// The archive could not be made, sent or unpacked.
    Staging,
    /// The temp tree or the live tree could not be read or planned for.
    Diff,
    /// The remote commands failed.
    Execution,
}

/// What the caller reports.
#[derive(Debug, Clone, Copy, PartialEq, Eq, Structural)]
pub enum Event {
    /// The run is asked for.
    Start,
    /// The settings and the source were checked; `true` where they passed.
    Validated(bool),
    /// The local archive was made; `true` where that worked.
    Archived(bool),
    /// The host was connected to; `true` where that worked.
    Connected(bool),
    /// The archive was sent; `true` where that worked.
    Uploaded(bool),
    /// The archive was unpacked; `true` where that worked.
    Unpacked(bool),
    /// The two trees were read; `true` where that worked.
    TreesRead(bool),
    /// A plan was asked for: whether one was made, and whether it holds no
    /// command.
    Planned { made: bool, empty: bool },
    /// The commands were run; `true` where they succeeded.
    Executed(bool),
    /// Cleanup was attempted. Whether it worked is of no account.
    CleanedUp,
}

/// What the caller is to do next.
#[derive(Debug, Clone, Copy, PartialEq, Eq, Structural)]
pub enum Action {
    /// Report `Start` to begin.
    Begin,
    /// Check the settings and the source.
    Validate,
    /// Pack the source into a local archive with a time stamp in its name.
    Archive,
    /// Connect to the host.
    Connect,
    /// Send the archive to the scratch directory.
    Upload,
    /// Unpack the archive there.
    Unpack,
    /// Read the temp tree and the live tree.
    ReadTrees,
    /// Make the plan.
    Plan,
    /// Run the commands of the plan as one batch.
    Execute,
    /// Delete the remote archive, the temp tree and the local archive, then
    /// close the connection.
    Cleanup,
    /// Hand the plan to the caller of the run: it succeeded.
    Finish,
    /// Hand this failure to the caller of the run.
    Fail(Failure),
}

/// The state of a run.
#[derive(Debug, Clone, Copy, PartialEq, Eq, Structural)]
pub struct Reconciler {
    /// Where the run stands.
    pub stage: Stage,
    /// Whether the host may hold scratch state of this run.
    pub scratch: bool,
    /// Whether the connection to the host is open.
    pub connected: bool,
    /// The failure that ends the run, once there is one.
    pub failure: Option<Failure>,
}

/// The state of a run that has not begun.
pub open spec fn initial() -> Reconciler {
    Reconciler { stage: Stage::Idle, scratch: false, connected: false, failure: None }
}

/// The run ends at once, with `failure`, nothing being there to clean up.
pub open spec fn ended_with(state: Reconciler, failure: Failure) -> Reconciler {
    Reconciler {
        stage: Stage::Done,
        scratch: state.scratch,
        connected: state.connected,
        failure: Some(failure),
    }
}

/// The run goes on to cleanup, with `failure` kept for its end.
pub open spec fn cleanup_after(state: Reconciler, failure: Option<Failure>) -> Reconciler {
    Reconciler {
        stage: Stage::Cleanup,
        scratch: state.scratch,
        connected: state.connected,
        failure: failure,
    }
}

/// The run goes on to `stage`.
pub open spec fn moved_to(state: Reconciler, stage: Stage) -> Reconciler {
    Reconciler {
        stage: stage,
        scratch: state.scratch,
        connected: state.connected,
        failure: state.failure,
    }
}

/// The state after `event`. An event that the stage does not wait for leaves
/// the state as it is.
pub open spec fn next_state(state: Reconciler, event: Event) -> Reconciler {
    match (state.stage, event) {
        (Stage::Idle, Event::Start) => moved_to(state, Stage::Validating),
        (Stage::Validating, Event::Validated(ok)) => if ok {
            moved_to(state, Stage::Staging(StagingStep::Archive))
        } else {
            ended_with(state, Failure::Validation)
        },
        (Stage::Staging(StagingStep::Archive), Event::Archived(ok)) => if ok {
            moved_to(state, Stage::Staging(StagingStep::Connect))
        } else {
            ended_with(state, Failure::Staging)
        },
        (Stage::Staging(StagingStep::Connect), Event::Connected(ok)) => if ok {
            Reconciler {
                stage: Stage::Staging(StagingStep::Upload),
                scratch: true,
                connected: true,
                failure: state.failure,
            }
        } else {
            ended_with(state, Failure::Connection)
        },
        (Stage::Staging(StagingStep::Upload), Event::Uploaded(ok)) => if ok {
            moved_to(state, Stage::Staging(StagingStep::Unpack))
        } else {
            cleanup_after(state, Some(Failure::Staging))
        },
        (Stage::Staging(StagingStep::Unpack), Event::Unpacked(ok)) => if ok {
            moved_to(state, Stage::Diffing)
        } else {
            cleanup_after(state, Some(Failure::Staging))
        },
        (Stage::Diffing, Event::TreesRead(ok)) => if ok {
            moved_to(state, Stage::Planning)
        } else {
            cleanup_after(state, Some(Failure::Diff))
        },
        (Stage::Planning, Event::Planned { made, empty }) => if !made {
            cleanup_after(state, Some(Failure::Diff))
        } else if empty {
            cleanup_after(state, None)
        } else {
            moved_to(state, Stage::Executing)
        },
        (Stage::Executing, Event::Executed(ok)) => if ok {
            cleanup_after(state, None)
        } else {
            cleanup_after(state, Some(Failure::Execution))
        },
        (Stage::Cleanup, Event::CleanedUp) => Reconciler {
            stage: Stage::Done,
            scratch: false,
            connected: false,
            failure: state.failure,
        },
        _ => state,
    }
}

/// What the caller is to do in `state`.
pub open spec fn pending_action(state: Reconciler) -> Action {
    match state.stage {
        Stage::Idle => Action::Begin,
        Stage::Validating => Action::Validate,
        Stage::Staging(StagingStep::Archive) => Action::Archive,
        Stage::Staging(StagingStep::Connect) => Action::Connect,
        Stage::Staging(StagingStep::Upload) => Action::Upload,
        Stage::Staging(StagingStep::Unpack) => Action::Unpack,
        Stage::Diffing => Action::ReadTrees,
        Stage::Planning => Action::Plan,
        Stage::Executing => Action::Execute,
        Stage::Cleanup => Action::Cleanup,
        Stage::Done => match state.failure {
            Some(failure) => Action::Fail(failure),
            None => Action::Finish,
        },
    }
}

/// The state after the events `events`, one after the other.
pub open spec fn state_after(state: Reconciler, events: Seq<Event>) -> Reconciler
    decreases events.len(),
{
    if events.len() == 0 {
        state
    } else {
        next_state(state_after(state, events.drop_last()), events.last())
    }
}

/// What holds of every state of a run: the connection is open and the host
/// may hold scratch state exactly from the moment the archive is sent until
/// cleanup was attempted, so a run that is over has left no scratch state
/// and no open connection; and a failure, once there is one, leads to
/// cleanup or to the end.
pub open spec fn consistent(state: Reconciler) -> bool {
    &&& state.stage == Stage::Done ==> !state.scratch && !state.connected
    &&& state.connected == state.scratch
    &&& state.scratch == (state.stage == Stage::Staging(StagingStep::Upload) || state.stage
        == Stage::Staging(StagingStep::Unpack) || state.stage == Stage::Diffing || state.stage
        == Stage::Planning || state.stage == Stage::Executing || state.stage == Stage::Cleanup)
    &&& state.failure is Some ==> (state.stage == Stage::Cleanup || state.stage == Stage::Done)
}

/// The progress line that goes out before an action is taken.
pub open spec fn announcement(action: Action) -> Seq<char> {
    match action {
        Action::Begin => "waiting to begin ..."@,
        Action::Validate => "validating settings and source ..."@,
        Action::Archive => "packing the artifact ..."@,
        Action::Connect => "connecting ..."@,
        Action::Upload => "uploading the archive ..."@,
        Action::Unpack => "unpacking the archive ..."@,
        Action::ReadTrees => "diffing: reading the temp tree and the live tree ..."@,
        Action::Plan => "planning ..."@,
        Action::Execute => "executing the commands ..."@,
        Action::Cleanup => "cleaning up ..."@,
        Action::Finish => "publish succeeded !"@,
        Action::Fail(_) => "publish failed !"@,
    }
}

/// The progress line that goes out after an action was taken.
pub open spec fn report(event: Event) -> Seq<char> {
    match event {
        Event::Start => "publish begins"@,
        Event::Validated(ok) => if ok {
            "settings and source are valid"@
        } else {
            "settings or source were turned down"@
        },
        Event::Archived(ok) => if ok {
            "artifact packed"@
        } else {
            "packing the artifact failed"@
        },
        Event::Connected(ok) => if ok {
            "connected"@
        } else {
            "connecting failed"@
        },
        Event::Uploaded(ok) => if ok {
            "archive uploaded"@
        } else {
            "uploading the archive failed"@
        },
        Event::Unpacked(ok) => if ok {
            "archive unpacked"@
        } else {
            "unpacking the archive failed"@
        },
        Event::TreesRead(ok) => if ok {
            "trees read"@
        } else {
            "reading the trees failed"@
        },
        Event::Planned { made, empty } => if !made {
            "planning failed"@
        } else if empty {
            "plan made: nothing to do"@
        } else {
            "plan made"@
        },
        Event::Executed(ok) => if ok {
            "commands executed"@
        } else {
            "executing the commands failed"@
        },
        Event::CleanedUp => "cleaned up"@,
    }
}

impl Action {
    /// The progress line that goes out before this action is taken.
    pub fn announce(&self) -> (r: &'static str)
        ensures
            r@ == announcement(*self),
    {
        match self {
            Action::Begin => "waiting to begin ...",
            Action::Validate => "validating settings and source ...",
            Action::Archive => "packing the artifact ...",
            Action::Connect => "connecting ...",
            Action::Upload => "uploading the archive ...",
            Action::Unpack => "unpacking the archive ...",
            Action::ReadTrees => "diffing: reading the temp tree and the live tree ...",
            Action::Plan => "planning ...",
            Action::Execute => "executing the commands ...",
            Action::Cleanup => "cleaning up ...",
            Action::Finish => "publish succeeded !",
            Action::Fail(_) => "publish failed !",
        }
    }
}

impl Event {
    /// The progress line that goes out after an action was taken.
    pub fn report(&self) -> (r: &'static str)
        ensures
            r@ == report(*self),
    {
        match self {
            Event::Start => "publish begins",
            Event::Validated(ok) => if *ok {
                "settings and source are valid"
            } else {
                "settings or source were turned down"
            },
            Event::Archived(ok) => if *ok {
                "artifact packed"
            } else {
                "packing the artifact failed"
            },
            Event::Connected(ok) => if *ok {
                "connected"
            } else {
                "connecting failed"
            },
            Event::Uploaded(ok) => if *ok {
                "archive uploaded"
            } else {
                "uploading the archive failed"
            },
            Event::Unpacked(ok) => if *ok {
                "archive unpacked"
            } else {
                "unpacking the archive failed"
            },
            Event::TreesRead(ok) => if *ok {
                "trees read"
            } else {
                "reading the trees failed"
            },
            Event::Planned { made, empty } => if !*made {
                "planning failed"
            } else if *empty {
                "plan made: nothing to do"
            } else {
                "plan made"
            },
            Event::Executed(ok) => if *ok {
                "commands executed"
            } else {
                "executing the commands failed"
            },
            Event::CleanedUp => "cleaned up",
        }
    }
}

impl Reconciler {
    /// A run that has not begun.
    pub fn new() -> (r: Reconciler)
        ensures
            r == initial(),
    {
        Reconciler { stage: Stage::Idle, scratch: false, connected: false, failure: None }
    }

    /// What the caller is to do now.
    pub fn action(&self) -> (r: Action)
        ensures
            r == pending_action(*self),
    {
        match self.stage {
            Stage::Idle => Action::Begin,
            Stage::Validating => Action::Validate,
            Stage::Staging(StagingStep::Archive) => Action::Archive,
            Stage::Staging(StagingStep::Connect) => Action::Connect,
            Stage::Staging(StagingStep::Upload) => Action::Upload,
            Stage::Staging(StagingStep::Unpack) => Action::Unpack,
            Stage::Diffing => Action::ReadTrees,
            Stage::Planning => Action::Plan,
            Stage::Executing => Action::Execute,
            Stage::Cleanup => Action::Cleanup,
            Stage::Done => match self.failure {
                Some(failure) => Action::Fail(failure),
                None => Action::Finish,
            },
        }
    }

    /// Whether the run is over.
    pub fn is_done(&self) -> (r: bool)
        ensures
            r == (self.stage == Stage::Done),
    {
        match self.stage {
            Stage::Done => true,
            _ => false,
        }
    }

    fn at(state: Reconciler, stage: Stage) -> (r: Reconciler)
        ensures
            r == moved_to(state, stage),
    {
        Reconciler {
            stage,
            scratch: state.scratch,
            connected: state.connected,
            failure: state.failure,
        }
    }

    fn over(state: Reconciler, failure: Failure) -> (r: Reconciler)
        ensures
            r == ended_with(state, failure),
    {
        Reconciler {
            stage: Stage::Done,
            scratch: state.scratch,
            connected: state.connected,
            failure: Some(failure),
        }
    }

    fn clean(state: Reconciler, failure: Option<Failure>) -> (r: Reconciler)
        ensures
            r == cleanup_after(state, failure),
    {
        Reconciler {
            stage: Stage::Cleanup,
            scratch: state.scratch,
            connected: state.connected,
            failure,
        }
    }

    /// Takes in what the caller reports and says what to do next.
    pub fn step(&mut self, event: Event) -> (r: Action)
        ensures
            *final(self) == next_state(*old(self), event),
            r == pending_action(next_state(*old(self), event)),
    {
        let scratch = self.scratch;
        let connected = self.connected;
        let failure = self.failure;
        let stay = Reconciler { stage: self.stage, scratch, connected, failure };
        let next = match (self.stage, event) {
            (Stage::Idle, Event::Start) => Self::at(stay, Stage::Validating),
            (Stage::Validating, Event::Validated(ok)) => if ok {
                Self::at(stay, Stage::Staging(StagingStep::Archive))
            } else {
                Self::over(stay, Failure::Validation)
            },
            (Stage::Staging(StagingStep::Archive), Event::Archived(ok)) => if ok {
                Self::at(stay, Stage::Staging(StagingStep::Connect))
            } else {
                Self::over(stay, Failure::Staging)
            },
            (Stage::Staging(StagingStep::Connect), Event::Connected(ok)) => if ok {
                Reconciler {
                    stage: Stage::Staging(StagingStep::Upload),
                    scratch: true,
                    connected: true,
                    failure,
                }
            } else {
                Self::over(stay, Failure::Connection)
            },
            (Stage::Staging(StagingStep::Upload), Event::Uploaded(ok)) => if ok {
                Self::at(stay, Stage::Staging(StagingStep::Unpack))
            } else {
                Self::clean(stay, Some(Failure::Staging))
            },
            (Stage::Staging(StagingStep::Unpack), Event::Unpacked(ok)) => if ok {
                Self::at(stay, Stage::Diffing)
            } else {
                Self::clean(stay, Some(Failure::Staging))
            },
            (Stage::Diffing, Event::TreesRead(ok)) => if ok {
                Self::at(stay, Stage::Planning)
            } else {
                Self::clean(stay, Some(Failure::Diff))
            },
            (Stage::Planning, Event::Planned { made, empty }) => if !made {
                Self::clean(stay, Some(Failure::Diff))
            } else if empty {
                Self::clean(stay, None)
            } else {
                Self::at(stay, Stage::Executing)
            },
            (Stage::Executing, Event::Executed(ok)) => if ok {
                Self::clean(stay, None)
            } else {
                Self::clean(stay, Some(Failure::Execution))
            },
            (Stage::Cleanup, Event::CleanedUp) => Reconciler {
                stage: Stage::Done,
                scratch: false,
                connected: false,
                failure,
            },
            _ => stay,
        };
        *self = next;
        next.action()
    }
}

/// Every step keeps a consistent state consistent.
pub proof fn step_keeps_consistent(state: Reconciler, event: Event)
    requires
        consistent(state),
    ensures
        consistent(next_state(state, event)),
{
}

/// Whatever is reported, in whatever order, the state of a run stays
/// consistent; so a run that is over has left no scratch state that cleanup
/// was not attempted on, and no open connection.
pub proof fn run_is_consistent(events: Seq<Event>)
    ensures
        consistent(state_after(initial(), events)),
        state_after(initial(), events).stage == Stage::Done ==> !state_after(
            initial(),
            events,
        ).scratch && !state_after(initial(), events).connected,
    decreases events.len(),
{
    if events.len() > 0 {
        run_is_consistent(events.drop_last());
        step_keeps_consistent(state_after(initial(), events.drop_last()), events.last());
    }
}

/// Cleanup is never skipped: from the moment the archive is sent, the run
/// cannot end but through the cleanup stage.
pub proof fn end_comes_after_cleanup(state: Reconciler, event: Event)
    requires
        state.scratch,
        consistent(state),
        next_state(state, event).stage == Stage::Done,
    ensures
        state.stage == Stage::Cleanup,
        event == Event::CleanedUp,
{
}

/// A failure before the archive is sent ends the run at once: nothing is
/// there to clean up, and cleanup is not attempted.
pub proof fn early_failure_skips_cleanup(state: Reconciler, event: Event)
    requires
        consistent(state),
        !state.scratch,
        next_state(state, event).failure is Some,
    ensures
        next_state(state, event).stage == Stage::Done,
        !next_state(state, event).scratch,
{
}

/// The failure that the run ends with is the one that sent it to cleanup:
/// what is reported of cleanup does not change it.
pub proof fn cleanup_keeps_failure(state: Reconciler, event: Event)
    requires
        state.stage == Stage::Cleanup,
    ensures
        next_state(state, event).failure == state.failure,
{
}

/// A run that is over stays as it is.
pub proof fn done_is_final(state: Reconciler, event: Event)
    requires
        state.stage == Stage::Done,
    ensures
        next_state(state, event) == state,
{
}

} // verus!
