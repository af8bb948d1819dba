use tend::event::RestartStrategy;
use tend::filter::Filter;
use tend::job::{Job, RestartBehavior};
use tend::orchestrator::{select_jobs, RunAction, RunError, RunEvent, RunState};

fn job(name: &str, group: &str, enabled: bool) -> Job {
    Job {
        name: name.to_string(),
        group: group.to_string(),
        program: "prog".to_string(),
        args: vec![],
        working_directory: "/".to_string(),
        restart: RestartBehavior::Always,
        restart_strategy: RestartStrategy::ExponentialBackoff,
        event_hooks: vec![],
        template: None,
        enabled,
    }
}

fn names(jobs: &[Job]) -> Vec<String> {
    jobs.iter().map(|j| j.name.clone()).collect()
}

#[test]
fn select_keeps_enabled_matching_jobs_in_order() {
    let jobs = vec![job("a", "g1", true), job("b", "g2", true), job("c", "g1", false), job("d", "g1", true)];
    let f = Filter::Subset { jobs: vec![], groups: vec!["g1".to_string()], exclude: vec![] };
    let picked = select_jobs(jobs, &f, false).unwrap();
    assert_eq!(names(&picked), vec!["a".to_string(), "d".to_string()]);
}

#[test]
fn select_can_include_disabled_jobs() {
    let jobs = vec![job("a", "g1", true), job("c", "g1", false)];
    let f = Filter::All { exclude: vec![] };
    let picked = select_jobs(jobs, &f, true).unwrap();
    assert_eq!(names(&picked), vec!["a".to_string(), "c".to_string()]);
}

#[test]
fn select_without_matches_fails() {
    let jobs = vec![job("a", "g1", false), job("b", "g1", true)];
    let f = Filter::All { exclude: vec!["b".to_string()] };
    assert_eq!(select_jobs(jobs, &f, false).unwrap_err(), RunError::NoJobsMatched);
    assert_eq!(select_jobs(vec![], &f, true).unwrap_err(), RunError::NoJobsMatched);
    assert_eq!(RunError::NoJobsMatched.message(), "No jobs matched.");
}

#[test]
fn run_finishes_when_all_jobs_end() {
    let mut st = RunState::new(2);
    assert_eq!(st.on_event(RunEvent::JobFinished), RunAction::Wait);
    assert_eq!(st.on_event(RunEvent::JobFinished), RunAction::Finish);
    assert_eq!(st.running, 0);
    assert!(!st.cancelling);
}

#[test]
fn interrupt_cancels_once_then_waits_for_jobs() {
    let mut st = RunState::new(2);
    assert_eq!(st.on_event(RunEvent::Interrupted), RunAction::CancelAll);
    assert!(st.cancelling);
    assert_eq!(st.on_event(RunEvent::Interrupted), RunAction::Wait);
    assert_eq!(st.on_event(RunEvent::JobFinished), RunAction::Wait);
    assert_eq!(st.on_event(RunEvent::JobFinished), RunAction::Finish);
}

#[test]
fn interrupt_after_all_jobs_ended_finishes() {
    let mut st = RunState::new(0);
    assert_eq!(st.on_event(RunEvent::Interrupted), RunAction::Finish);
    assert!(!st.cancelling);
}
