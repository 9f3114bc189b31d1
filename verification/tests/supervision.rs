use judge::{
    process_group_id, ChildObservation, POLL_PAUSE_MILLISECONDS, GRACE_MILLISECONDS, ChildOutput, Error, GroupSignal, SupervisionDirective,
    SupervisionPhase,
};

fn drive(observations: Vec<ChildObservation>) -> Vec<SupervisionDirective> {
    let (mut phase, first) = SupervisionPhase::start();
    let mut directives = vec![first];
    for observation in observations {
        let (next, directive) = phase.step(observation);
        phase = next;
        directives.push(directive);
    }
    directives
}

#[test]
fn timely_exit_hands_back_the_output() {
    let directives = drive(vec![
        ChildObservation::Launched,
        ChildObservation::StillRunning,
        ChildObservation::Exited { success: true },
        ChildObservation::OutputRead(Some(b"Accept\n".to_vec())),
    ]);
    assert_eq!(
        directives,
        vec![
            SupervisionDirective::Launch,
            SupervisionDirective::CheckChild { pause_milliseconds: 0 },
            SupervisionDirective::CheckChild { pause_milliseconds: POLL_PAUSE_MILLISECONDS },
            SupervisionDirective::ReadOutput,
            SupervisionDirective::Finish(Ok(ChildOutput { success: true, stdout: b"Accept\n".to_vec() })),
        ]
    );
}

#[test]
fn hanging_child_is_terminated_then_killed_and_times_out() {
    let directives = drive(vec![
        ChildObservation::Launched,
        ChildObservation::StillRunning,
        ChildObservation::DeadlinePassed,
        ChildObservation::SignalDelivered,
        ChildObservation::StillRunning,
        ChildObservation::DeadlinePassed,
        ChildObservation::SignalDelivered,
        ChildObservation::Reaped,
    ]);
    assert_eq!(
        directives,
        vec![
            SupervisionDirective::Launch,
            SupervisionDirective::CheckChild { pause_milliseconds: 0 },
            SupervisionDirective::CheckChild { pause_milliseconds: POLL_PAUSE_MILLISECONDS },
            SupervisionDirective::SignalGroup(GroupSignal::Terminate),
            SupervisionDirective::CheckChildWithinGrace { pause_milliseconds: 0 },
            SupervisionDirective::CheckChildWithinGrace { pause_milliseconds: POLL_PAUSE_MILLISECONDS },
            SupervisionDirective::SignalGroup(GroupSignal::Kill),
            SupervisionDirective::Reap,
            SupervisionDirective::Finish(Err(Error::ProviderCommandTimedOut)),
        ]
    );
}

#[test]
fn child_that_exits_during_grace_still_times_out() {
    let directives = drive(vec![
        ChildObservation::Launched,
        ChildObservation::DeadlinePassed,
        ChildObservation::SignalDelivered,
        ChildObservation::Exited { success: true },
    ]);
    assert_eq!(
        directives.last(),
        Some(&SupervisionDirective::Finish(Err(Error::ProviderCommandTimedOut)))
    );
}

#[test]
fn launch_and_poll_failures_mean_the_command_is_unavailable() {
    assert_eq!(
        drive(vec![ChildObservation::LaunchFailed]).last(),
        Some(&SupervisionDirective::Finish(Err(Error::ProviderCommandUnavailable)))
    );
    assert_eq!(
        drive(vec![ChildObservation::Launched, ChildObservation::PollFailed]).last(),
        Some(&SupervisionDirective::Finish(Err(Error::ProviderCommandUnavailable)))
    );
    assert_eq!(
        drive(vec![
            ChildObservation::Launched,
            ChildObservation::Exited { success: false },
            ChildObservation::OutputRead(None),
        ])
        .last(),
        Some(&SupervisionDirective::Finish(Err(Error::ProviderCommandUnavailable)))
    );
}

#[test]
fn teardown_failures_are_reported_as_such() {
    let teardown = Some(&SupervisionDirective::Finish(Err(
        Error::ProviderProcessGroupTeardownFailed,
    )));
    assert_eq!(
        drive(vec![
            ChildObservation::Launched,
            ChildObservation::DeadlinePassed,
            ChildObservation::SignalFailed,
        ])
        .last(),
        teardown
    );
    assert_eq!(
        drive(vec![
            ChildObservation::Launched,
            ChildObservation::DeadlinePassed,
            ChildObservation::SignalDelivered,
            ChildObservation::PollFailed,
        ])
        .last(),
        teardown
    );
    assert_eq!(
        drive(vec![
            ChildObservation::Launched,
            ChildObservation::DeadlinePassed,
            ChildObservation::SignalDelivered,
            ChildObservation::DeadlinePassed,
            ChildObservation::SignalFailed,
        ])
        .last(),
        teardown
    );
    assert_eq!(
        drive(vec![
            ChildObservation::Launched,
            ChildObservation::DeadlinePassed,
            ChildObservation::SignalDelivered,
            ChildObservation::DeadlinePassed,
            ChildObservation::SignalDelivered,
            ChildObservation::ReapFailed,
        ])
        .last(),
        teardown
    );
}

#[test]
fn unsuccessful_exit_still_hands_back_the_output() {
    assert_eq!(
        drive(vec![
            ChildObservation::Launched,
            ChildObservation::Exited { success: false },
            ChildObservation::OutputRead(Some(Vec::new())),
        ])
        .last(),
        Some(&SupervisionDirective::Finish(Ok(ChildOutput { success: false, stdout: Vec::new() })))
    );
}

#[test]
fn signals_go_to_the_whole_process_group() {
    assert_eq!(process_group_id(4321), -4321);
    assert_eq!(process_group_id(1), -1);
}

#[test]
fn supervision_timing_rules() {
    assert_eq!(POLL_PAUSE_MILLISECONDS, 10);
    assert_eq!(GRACE_MILLISECONDS, 100);
}
