use tend::event::{Action, ControlFlow, Event, Hook, RestartStrategy, Stream};
use tend::job::{Job, RestartBehavior};
use tend::supervisor::{ProcessEvent, Step, Supervision};

fn job(restart: RestartBehavior, hooks: Vec<Hook>) -> Job {
    Job {
        name: "svc".to_string(),
        group: "default".to_string(),
        program: "prog".to_string(),
        args: vec!["--flag".to_string()],
        working_directory: "/srv".to_string(),
        restart,
        restart_strategy: RestartStrategy::ExponentialBackoff,
        event_hooks: hooks,
        template: None,
        enabled: true,
    }
}

fn counters(normal: u64, fast: u64) -> Supervision {
    Supervision { backoff_restart_count: normal, fast_backoff_restart_count: fast }
}

fn is_restart(s: &Step) -> bool {
    matches!(s, Step::Restart { .. })
}

#[test]
fn never_does_not_restart() {
    let j = job(RestartBehavior::Never, vec![]);
    for success in [true, false] {
        let mut s = Supervision::new();
        let step = s.on_event(&j, &ProcessEvent::Exited { success }, 1);
        assert!(!is_restart(&step));
    }
}

#[test]
fn always_restarts_after_both_outcomes() {
    let j = job(RestartBehavior::Always, vec![]);
    for success in [true, false] {
        let mut s = Supervision::new();
        let step = s.on_event(&j, &ProcessEvent::Exited { success }, 1);
        assert!(is_restart(&step));
    }
}

#[test]
fn on_failure_restarts_only_after_failure() {
    let j = job(RestartBehavior::OnFailure, vec![]);
    let mut s = Supervision::new();
    assert_eq!(
        s.on_event(&j, &ProcessEvent::Exited { success: true }, 1),
        Step::Stop { reason: "success".to_string() }
    );
    let mut s = Supervision::new();
    assert!(is_restart(&s.on_event(&j, &ProcessEvent::Exited { success: false }, 1)));
}

#[test]
fn on_success_restarts_only_after_success() {
    let j = job(RestartBehavior::OnSuccess, vec![]);
    let mut s = Supervision::new();
    assert!(is_restart(&s.on_event(&j, &ProcessEvent::Exited { success: true }, 1)));
    let mut s = Supervision::new();
    assert_eq!(
        s.on_event(&j, &ProcessEvent::Exited { success: false }, 1),
        Step::Stop { reason: "failure".to_string() }
    );
}

#[test]
fn exit_control_reasons() {
    let j = job(RestartBehavior::Always, vec![]);
    assert_eq!(j.exit_control(true), ControlFlow::RestartCommand("success".to_string()));
    assert_eq!(j.exit_control(false), ControlFlow::RestartCommand("failure".to_string()));
    let j = job(RestartBehavior::Never, vec![]);
    assert_eq!(j.exit_control(true), ControlFlow::StopJob("success".to_string()));
    assert_eq!(j.exit_control(false), ControlFlow::StopJob("failure".to_string()));
}

#[test]
fn recovery_decay_after_long_uptime() {
    let j = job(RestartBehavior::Always, vec![]);
    let mut s = counters(5, 3);
    let step = s.on_event(&j, &ProcessEvent::Exited { success: false }, 125);
    // 125 s of uptime take two off the counter: 5 -> 3, then this restart counts.
    assert_eq!(
        step,
        Step::Restart { reason: "failure".to_string(), fast: false, delay_seconds: 1, attempt: 4 }
    );
    assert_eq!(s, counters(4, 0));
}

#[test]
fn recovery_never_goes_below_zero() {
    let mut s = counters(2, 4);
    s.recover(3600);
    assert_eq!(s, counters(0, 0));
}

#[test]
fn no_recovery_below_threshold() {
    let mut s = counters(5, 3);
    s.recover(59);
    assert_eq!(s, counters(5, 3));
    s.recover(60);
    assert_eq!(s, counters(4, 0));
}

#[test]
fn consecutive_restarts_back_off() {
    let j = job(RestartBehavior::Always, vec![]);
    let mut s = Supervision::new();
    let mut delays = vec![];
    for _ in 0..11 {
        match s.on_event(&j, &ProcessEvent::Exited { success: false }, 0) {
            Step::Restart { delay_seconds, .. } => delays.push(delay_seconds),
            other => panic!("unexpected step {:?}", other),
        }
    }
    assert_eq!(delays, vec![0, 0, 0, 1, 2, 4, 8, 15, 30, 60, 60]);
    assert_eq!(s, counters(11, 0));
}

#[test]
fn fast_restarts_use_their_own_counter_and_table() {
    let hook = Hook {
        name: "lost".to_string(),
        event: Event::DetectSubstring { stream: Stream::Any, contains: "lost".to_string() },
        action: Action::FastRestart,
    };
    let j = job(RestartBehavior::Always, vec![hook]);
    let mut s = counters(7, 6);
    let step = s.on_event(&j, &ProcessEvent::StderrLine("connection lost".to_string()), 10);
    assert_eq!(
        step,
        Step::Restart { reason: "lost".to_string(), fast: true, delay_seconds: 5, attempt: 7 }
    );
    assert_eq!(s, counters(7, 7));
    let step = s.on_event(&j, &ProcessEvent::StderrLine("connection lost".to_string()), 10);
    assert_eq!(
        step,
        Step::Restart { reason: "lost".to_string(), fast: true, delay_seconds: 8, attempt: 8 }
    );
}

#[test]
fn immediate_strategy_restarts_without_delay() {
    let mut j = job(RestartBehavior::Always, vec![]);
    j.restart_strategy = RestartStrategy::Immediate;
    let mut s = counters(20, 0);
    match s.on_event(&j, &ProcessEvent::Exited { success: true }, 0) {
        Step::Restart { delay_seconds, attempt, .. } => {
            assert_eq!(delay_seconds, 0);
            assert_eq!(attempt, 21);
        }
        other => panic!("unexpected step {:?}", other),
    }
}

#[test]
fn cancellation_always_wins() {
    let j = job(RestartBehavior::Always, vec![]);
    let mut s = counters(3, 1);
    let step = s.on_event(&j, &ProcessEvent::Cancelled, 5);
    assert_eq!(step, Step::Stop { reason: "termination signal".to_string() });
    assert_eq!(s, counters(3, 1));
}

#[test]
fn stop_hook_ends_job_before_exit() {
    let hook = Hook {
        name: "error hook".to_string(),
        event: Event::DetectSubstring { stream: Stream::Any, contains: "ERROR".to_string() },
        action: Action::Stop,
    };
    let j = job(RestartBehavior::Always, vec![hook]);
    let mut s = Supervision::new();
    assert_eq!(
        s.on_event(&j, &ProcessEvent::StdoutLine("starting up".to_string()), 0),
        Step::KeepRunning
    );
    assert_eq!(
        s.on_event(&j, &ProcessEvent::StdoutLine("some ERROR here".to_string()), 2),
        Step::Stop { reason: "error hook".to_string() }
    );
}

#[test]
fn ordinary_output_and_closed_streams_keep_running() {
    let j = job(RestartBehavior::Always, vec![]);
    let mut s = counters(4, 2);
    assert_eq!(s.on_event(&j, &ProcessEvent::StdoutLine("hello".to_string()), 500), Step::KeepRunning);
    assert_eq!(s.on_event(&j, &ProcessEvent::OutputClosed, 500), Step::KeepRunning);
    assert_eq!(s, counters(4, 2));
}

#[test]
fn control_for_event_covers_every_event() {
    let j = job(RestartBehavior::OnFailure, vec![]);
    assert_eq!(j.control_for_event(&ProcessEvent::OutputClosed), ControlFlow::Nothing);
    assert_eq!(
        j.control_for_event(&ProcessEvent::Cancelled),
        ControlFlow::StopJob("termination signal".to_string())
    );
    assert_eq!(
        j.control_for_event(&ProcessEvent::Exited { success: false }),
        ControlFlow::RestartCommand("failure".to_string())
    );
}

#[test]
fn restart_behaviour_wording() {
    assert_eq!(job(RestartBehavior::Always, vec![]).restart_behaviour(), "always");
    assert_eq!(job(RestartBehavior::OnSuccess, vec![]).restart_behaviour(), "on success");
    assert_eq!(job(RestartBehavior::OnFailure, vec![]).restart_behaviour(), "on failure");
    assert_eq!(job(RestartBehavior::Never, vec![]).restart_behaviour(), "never");
    assert!(job(RestartBehavior::OnSuccess, vec![]).restart_on_success());
    assert!(!job(RestartBehavior::OnSuccess, vec![]).restart_on_failure());
    assert_eq!(RestartBehavior::default(), RestartBehavior::Always);
}
