use dream_launcher::supervisor::{ProcessEvent, StepOutcome, Supervisor, SupervisorStatus};

#[test]
fn marker_on_third_stdout_line_fires_readiness_despite_stderr_noise() {
    let mut sup = Supervisor::new();
    let events = vec![
        ProcessEvent::StdoutLine("Loading libraries".to_string()),
        ProcessEvent::StderrLine("WARNING: deprecated option".to_string()),
        ProcessEvent::StdoutLine("Setting user: Player".to_string()),
        ProcessEvent::StderrLine("more noise".to_string()),
        ProcessEvent::StdoutLine("[Render thread/INFO]: Sound engine started".to_string()),
    ];
    let mut outcomes = Vec::new();
    for e in &events {
        outcomes.push(sup.step(e));
    }
    assert_eq!(
        outcomes,
        vec![
            StepOutcome::Continue,
            StepOutcome::Continue,
            StepOutcome::Continue,
            StepOutcome::Continue,
            StepOutcome::Ready,
        ]
    );
    assert_eq!(sup.status, SupervisorStatus::ReadyDetected);
    assert!(!sup.should_continue());
}

#[test]
fn marker_on_stderr_also_counts() {
    let mut sup = Supervisor::new();
    let sig = sup.step(&ProcessEvent::StderrLine(
        "...Sound engine started...".to_string(),
    ));
    assert_eq!(sig, StepOutcome::Ready);
}

#[test]
fn readiness_fires_exactly_once() {
    let mut sup = Supervisor::new();
    assert_eq!(
        sup.step(&ProcessEvent::StdoutLine("Sound engine started".to_string())),
        StepOutcome::Ready
    );
    // The same marker again only drains; no second signal.
    assert_eq!(
        sup.step(&ProcessEvent::StdoutLine("Sound engine started".to_string())),
        StepOutcome::Continue
    );
    assert_eq!(sup.status, SupervisorStatus::ReadyDetected);
}

#[test]
fn exit_before_marker_reports_the_code() {
    let mut sup = Supervisor::new();
    sup.step(&ProcessEvent::StdoutLine("crashing...".to_string()));
    let sig = sup.step(&ProcessEvent::Exited(Some(3)));
    assert_eq!(sig, StepOutcome::Exit { code: 3 });
    assert_eq!(sup.status, SupervisorStatus::ExitedWithoutReady { code: 3 });
    assert!(!sup.should_continue());
}

#[test]
fn signal_termination_reports_the_sentinel() {
    let mut sup = Supervisor::new();
    let sig = sup.step(&ProcessEvent::Exited(None));
    assert_eq!(sig, StepOutcome::Exit { code: -1 });
    assert_eq!(sup.status, SupervisorStatus::ExitedWithoutReady { code: -1 });
}

#[test]
fn lines_without_the_marker_keep_the_race_running() {
    let mut sup = Supervisor::new();
    sup.step(&ProcessEvent::StdoutLine("Sound engine".to_string()));
    sup.step(&ProcessEvent::StderrLine("started".to_string()));
    assert_eq!(sup.status, SupervisorStatus::Running);
    assert!(sup.should_continue());
}
