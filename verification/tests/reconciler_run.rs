use deploy_tools::reconciler::{Action, Event, Failure, Reconciler, Stage, StagingStep};

fn run(events: &[Event]) -> (Reconciler, Vec<Action>) {
    let mut r = Reconciler::new();
    let mut actions = Vec::new();
    for e in events {
        actions.push(r.step(*e));
    }
    (r, actions)
}

#[test]
fn a_new_run_waits_to_begin() {
    let r = Reconciler::new();
    assert_eq!(r.stage, Stage::Idle);
    assert!(!r.scratch);
    assert!(!r.connected);
    assert_eq!(r.failure, None);
    assert_eq!(r.action(), Action::Begin);
    assert!(!r.is_done());
}

#[test]
fn a_run_that_succeeds_goes_through_every_stage_and_cleans_up() {
    let (r, actions) = run(&[
        Event::Start,
        Event::Validated(true),
        Event::Archived(true),
        Event::Connected(true),
        Event::Uploaded(true),
        Event::Unpacked(true),
        Event::TreesRead(true),
        Event::Planned { made: true, empty: false },
        Event::Executed(true),
        Event::CleanedUp,
    ]);
    assert_eq!(
        actions,
        vec![
            Action::Validate,
            Action::Archive,
            Action::Connect,
            Action::Upload,
            Action::Unpack,
            Action::ReadTrees,
            Action::Plan,
            Action::Execute,
            Action::Cleanup,
            Action::Finish,
        ]
    );
    assert!(r.is_done());
    assert!(!r.scratch);
    assert!(!r.connected);
    assert_eq!(r.failure, None);
}

#[test]
fn a_failed_command_is_followed_by_cleanup_and_surfaced() {
    let (r, actions) = run(&[
        Event::Start,
        Event::Validated(true),
        Event::Archived(true),
        Event::Connected(true),
        Event::Uploaded(true),
        Event::Unpacked(true),
        Event::TreesRead(true),
        Event::Planned { made: true, empty: false },
        Event::Executed(false),
    ]);
    assert_eq!(actions.last(), Some(&Action::Cleanup));
    assert_eq!(r.stage, Stage::Cleanup);
    assert!(r.scratch);
    assert!(r.connected);
    assert_eq!(r.failure, Some(Failure::Execution));
    let mut r = r;
    assert_eq!(r.step(Event::CleanedUp), Action::Fail(Failure::Execution));
    assert!(r.is_done());
    assert!(!r.scratch);
    assert!(!r.connected);
}

#[test]
fn an_empty_plan_skips_execution_and_still_cleans_up() {
    let (r, actions) = run(&[
        Event::Start,
        Event::Validated(true),
        Event::Archived(true),
        Event::Connected(true),
        Event::Uploaded(true),
        Event::Unpacked(true),
        Event::TreesRead(true),
        Event::Planned { made: true, empty: true },
        Event::CleanedUp,
    ]);
    assert_eq!(&actions[7..], &[Action::Cleanup, Action::Finish]);
    assert!(r.is_done());
    assert_eq!(r.failure, None);
    assert!(!r.scratch);
}

#[test]
fn failures_before_anything_is_sent_end_the_run_at_once() {
    let (r, actions) = run(&[Event::Start, Event::Validated(false)]);
    assert_eq!(actions.last(), Some(&Action::Fail(Failure::Validation)));
    assert!(r.is_done());
    assert!(!r.scratch);

    let (r, actions) = run(&[Event::Start, Event::Validated(true), Event::Archived(false)]);
    assert_eq!(actions.last(), Some(&Action::Fail(Failure::Staging)));
    assert!(r.is_done());
    assert!(!r.scratch);

    let (r, actions) = run(&[
        Event::Start,
        Event::Validated(true),
        Event::Archived(true),
        Event::Connected(false),
    ]);
    assert_eq!(actions.last(), Some(&Action::Fail(Failure::Connection)));
    assert!(r.is_done());
    assert!(!r.scratch);
}

#[test]
fn failures_after_the_archive_is_sent_lead_to_cleanup() {
    let staged = [
        Event::Start,
        Event::Validated(true),
        Event::Archived(true),
        Event::Connected(true),
    ];
    let cases: Vec<(Vec<Event>, Failure)> = vec![
        (vec![Event::Uploaded(false)], Failure::Staging),
        (vec![Event::Uploaded(true), Event::Unpacked(false)], Failure::Staging),
        (
            vec![Event::Uploaded(true), Event::Unpacked(true), Event::TreesRead(false)],
            Failure::Diff,
        ),
        (
            vec![
                Event::Uploaded(true),
                Event::Unpacked(true),
                Event::TreesRead(true),
                Event::Planned { made: false, empty: false },
            ],
            Failure::Diff,
        ),
    ];
    for (more, failure) in cases {
        let mut events = staged.to_vec();
        events.extend(more);
        let (mut r, actions) = run(&events);
        assert_eq!(actions.last(), Some(&Action::Cleanup));
        assert!(r.scratch);
        assert_eq!(r.step(Event::CleanedUp), Action::Fail(failure));
        assert!(!r.scratch);
        assert!(r.is_done());
    }
}

#[test]
fn an_event_that_is_not_waited_for_changes_nothing() {
    let (mut r, _) = run(&[Event::Start, Event::Validated(true)]);
    let before = r;
    assert_eq!(r.step(Event::Executed(true)), Action::Archive);
    assert_eq!(r, before);
    assert_eq!(r.step(Event::CleanedUp), Action::Archive);
    assert_eq!(r, before);
    assert_eq!(r.stage, Stage::Staging(StagingStep::Archive));
}

#[test]
fn a_run_that_is_over_stays_over() {
    let (mut r, _) = run(&[Event::Start, Event::Validated(false)]);
    let before = r;
    for e in [Event::Start, Event::Validated(true), Event::CleanedUp, Event::Executed(true)] {
        assert_eq!(r.step(e), Action::Fail(Failure::Validation));
        assert_eq!(r, before);
    }
}

#[test]
fn no_order_of_events_ends_a_run_with_scratch_left() {
    let events = [
        Event::Start,
        Event::Validated(true),
        Event::Validated(false),
        Event::Archived(true),
        Event::Archived(false),
        Event::Connected(true),
        Event::Connected(false),
        Event::Uploaded(true),
        Event::Uploaded(false),
        Event::Unpacked(true),
        Event::Unpacked(false),
        Event::TreesRead(true),
        Event::TreesRead(false),
        Event::Planned { made: true, empty: true },
        Event::Planned { made: true, empty: false },
        Event::Planned { made: false, empty: false },
        Event::Executed(true),
        Event::Executed(false),
        Event::CleanedUp,
    ];
    let mut states = vec![Reconciler::new()];
    let mut seen = vec![Reconciler::new()];
    while let Some(state) = states.pop() {
        for e in events {
            let mut next = state;
            next.step(e);
            if next.is_done() {
                assert!(!next.scratch);
                assert!(!next.connected);
            }
            assert_eq!(next.scratch, next.connected);
            if next.scratch && next.stage != Stage::Cleanup {
                assert!(!next.is_done());
            }
            if !seen.contains(&next) {
                seen.push(next);
                states.push(next);
            }
        }
    }
    assert!(seen.iter().any(|s| s.is_done() && s.failure.is_none()));
    assert!(seen.iter().any(|s| s.failure == Some(Failure::Execution)));
}

#[test]
fn every_action_is_announced_and_every_outcome_reported() {
    assert_eq!(Action::Connect.announce(), "connecting ...");
    assert_eq!(Action::Upload.announce(), "uploading the archive ...");
    assert_eq!(
        Action::ReadTrees.announce(),
        "diffing: reading the temp tree and the live tree ..."
    );
    assert_eq!(Action::Plan.announce(), "planning ...");
    assert_eq!(Action::Execute.announce(), "executing the commands ...");
    assert_eq!(Action::Cleanup.announce(), "cleaning up ...");
    assert_eq!(Action::Validate.announce(), "validating settings and source ...");
    assert_eq!(Action::Archive.announce(), "packing the artifact ...");
    assert_eq!(Action::Unpack.announce(), "unpacking the archive ...");
    assert_eq!(Action::Begin.announce(), "waiting to begin ...");
    assert_eq!(Action::Finish.announce(), "publish succeeded !");
    assert_eq!(Action::Fail(Failure::Diff).announce(), "publish failed !");
    assert_eq!(Event::Start.report(), "publish begins");
    assert_eq!(Event::Validated(true).report(), "settings and source are valid");
    assert_eq!(Event::Validated(false).report(), "settings or source were turned down");
    assert_eq!(Event::Archived(true).report(), "artifact packed");
    assert_eq!(Event::Archived(false).report(), "packing the artifact failed");
    assert_eq!(Event::Connected(true).report(), "connected");
    assert_eq!(Event::Connected(false).report(), "connecting failed");
    assert_eq!(Event::Uploaded(true).report(), "archive uploaded");
    assert_eq!(Event::Uploaded(false).report(), "uploading the archive failed");
    assert_eq!(Event::Unpacked(true).report(), "archive unpacked");
    assert_eq!(Event::Unpacked(false).report(), "unpacking the archive failed");
    assert_eq!(Event::TreesRead(true).report(), "trees read");
    assert_eq!(Event::TreesRead(false).report(), "reading the trees failed");
    assert_eq!(Event::Planned { made: true, empty: false }.report(), "plan made");
    assert_eq!(Event::Planned { made: true, empty: true }.report(), "plan made: nothing to do");
    assert_eq!(Event::Planned { made: false, empty: true }.report(), "planning failed");
    assert_eq!(Event::Executed(true).report(), "commands executed");
    assert_eq!(Event::Executed(false).report(), "executing the commands failed");
    assert_eq!(Event::CleanedUp.report(), "cleaned up");
}
