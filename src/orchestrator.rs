use vstd::prelude::*;

use crate::filter::{filter_matches, Filter, FilterView};
use crate::job::Job;

verus! {

/// Why a run could not start.
#[derive(Clone, Copy, Debug, PartialEq, Eq, Structural)]
pub enum RunError {
    /// No job satisfied the filter.
    NoJobsMatched,
}

impl RunError {
    /// The operator-facing wording of the error.
    pub fn message(&self) -> (r: &'static str)
        ensures
            r@ == "No jobs matched."@,
    {
        match self {
            RunError::NoJobsMatched => "No jobs matched.",
        }
    }
}

/// A job takes part in a run with filter `f`: it is enabled, or disabled
/// jobs are included, and the filter selects it.
pub open spec fn takes_part(job: Job, f: FilterView, include_disabled: bool) -> bool {
    (include_disabled || job.enabled) && filter_matches(f, job.name@, job.group@)
}

/// The jobs of `jobs` that take part in a run, in their order.
pub open spec fn participants(jobs: Seq<Job>, f: FilterView, include_disabled: bool) -> Seq<Job> {
    jobs.filter(|j: Job| takes_part(j, f, include_disabled))
}

/// Picks the jobs of a run from all stored jobs, keeping their order; a run
/// that no job would take part in is refused.
pub fn select_jobs(jobs: Vec<Job>, filter: &Filter, include_disabled: bool) -> (r: Result<Vec<Job>, RunError>)
    ensures
        participants(jobs@, filter@, include_disabled).len() == 0 ==> r == Err::<Vec<Job>, RunError>(
            RunError::NoJobsMatched,
        ),
        participants(jobs@, filter@, include_disabled).len() > 0 ==> r is Ok,
        r is Ok ==> r->Ok_0@ == participants(jobs@, filter@, include_disabled),
{
    let ghost all = jobs@;
    let ghost pred = |j: Job| takes_part(j, filter@, include_disabled);
    let mut rest = jobs;
    let mut kept: Vec<Job> = Vec::new();
    let ghost mut k: int = 0;
    assert(all.subrange(0, 0) =~= Seq::<Job>::empty());
    assert(rest@ =~= all.subrange(0, all.len() as int));
    while rest.len() > 0
        invariant
            0 <= k <= all.len(),
            rest@ == all.subrange(k, all.len() as int),
            kept@ == all.subrange(0, k).filter(pred),
            pred == (|j: Job| takes_part(j, filter@, include_disabled)),
        decreases rest.len(),
    {
        let job = rest.remove(0);
        proof {
            assert(job == all[k]);
            assert(all.subrange(0, k + 1) =~= all.subrange(0, k).push(job));
            all.subrange(0, k).lemma_filter_push(job, pred);
            assert(rest@ =~= all.subrange(k + 1, all.len() as int));
        }
        if filter.matches(&job) && (include_disabled || job.enabled) {
            kept.push(job);
        }
        proof {
            k = k + 1;
        }
    }
    assert(all.subrange(0, k) =~= all);
    if kept.len() == 0 {
        Err(RunError::NoJobsMatched)
    } else {
        Ok(kept)
    }
}

/// What the orchestrator observed while its jobs run.
#[derive(Clone, Copy, Debug, PartialEq, Eq, Structural)]
pub enum RunEvent {
    /// One job's supervision ended.
    JobFinished,
    /// The operator asked for shutdown.
    Interrupted,
}

/// What the orchestrator does next.
#[derive(Clone, Copy, Debug, PartialEq, Eq, Structural)]
pub enum RunAction {
    /// Keep waiting for the jobs.
    Wait,
    /// Send a cancellation to every job that still runs, then keep waiting.
    CancelAll,
    /// Every job has ended: the run is over.
    Finish,
}

/// The orchestrator's view of a run: how many jobs still run, and whether
/// they were told to shut down.
#[derive(Clone, Copy, Debug, PartialEq, Eq, Structural)]
pub struct RunState {
    pub running: usize,
    pub cancelling: bool,
}

/// The action an event calls for when `running` jobs run and `cancelling`
/// tells whether they were told to shut down.
pub open spec fn run_action(running: nat, cancelling: bool, event: RunEvent) -> RunAction {
    match event {
        RunEvent::JobFinished => if running <= 1 {
            RunAction::Finish
        } else {
            RunAction::Wait
        },
        RunEvent::Interrupted => if running == 0 {
            RunAction::Finish
        } else if cancelling {
            RunAction::Wait
        } else {
            RunAction::CancelAll
        },
    }
}

impl RunState {
    /// A run of `jobs` jobs, all running.
    pub fn new(jobs: usize) -> (r: RunState)
        ensures
            r.running == jobs,
            !r.cancelling,
    {
        RunState { running: jobs, cancelling: false }
    }

    /// Reacts to `event`: a finished job is counted off and the run ends with
    /// the last one; the first interrupt cancels every running job, and later
    /// ones change nothing.
    pub fn on_event(&mut self, event: RunEvent) -> (r: RunAction)
        ensures
            r == run_action(old(self).running as nat, old(self).cancelling, event),
            final(self).running == match event {
                RunEvent::JobFinished => if old(self).running == 0 {
                    0
                } else {
                    old(self).running - 1
                },
                RunEvent::Interrupted => old(self).running as int,
            },
            final(self).cancelling == (old(self).cancelling || (event == RunEvent::Interrupted
                && old(self).running > 0)),
    {
        match event {
            RunEvent::JobFinished => {
                if self.running > 0 {
                    self.running = self.running - 1;
                }
                if self.running == 0 {
                    RunAction::Finish
                } else {
                    RunAction::Wait
                }
            },
            RunEvent::Interrupted => {
                if self.running == 0 {
                    RunAction::Finish
                } else if self.cancelling {
                    RunAction::Wait
                } else {
                    self.cancelling = true;
                    RunAction::CancelAll
                }
            },
        }
    }
}

} // verus!
