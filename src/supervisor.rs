use vstd::prelude::*;

use crate::event::{
    evaluate, fast_delay, hook_fires, lemma_first_match_wins, normal_delay, Action, ControlFlow,
    RestartStrategy, Signal, Stream,
};
use crate::job::{exit_signal, restarts_on_failure, restarts_on_success, Job, RestartBehavior};

verus! {

/// Something observed while a job's process runs.
#[derive(Clone, Debug)]
pub enum ProcessEvent {
    /// A line the process wrote to standard output.
    StdoutLine(String),
    /// A line the process wrote to standard error.
    StderrLine(String),
    /// One of the output streams ended.
    OutputClosed,
    /// The process exited; `success` is false also when its exit could not
    /// be observed.
    Exited { success: bool },
    /// The job was asked to shut down.
    Cancelled,
}

/// The reason given when a job is shut down on request.
pub open spec fn cancellation_reason() -> Seq<char> {
    "termination signal"@
}

/// The signal that an event produces for a job.
pub open spec fn event_signal(job: Job, event: ProcessEvent) -> Signal {
    match event {
        ProcessEvent::StdoutLine(line) => evaluate(job.hooks(), line@, Stream::Stdout),
        ProcessEvent::StderrLine(line) => evaluate(job.hooks(), line@, Stream::Stderr),
        ProcessEvent::OutputClosed => Signal::Continue,
        ProcessEvent::Exited { success } => exit_signal(job.restart, success),
        ProcessEvent::Cancelled => Signal::Stop(cancellation_reason()),
    }
}

impl Job {
    /// What an event observed while the job's process runs calls for: output
    /// lines go through the hooks of their stream, an exit through the
    /// restart behaviour, and a cancellation always stops the job.
    pub fn control_for_event(&self, event: &ProcessEvent) -> (r: ControlFlow)
        ensures
            r@ == event_signal(*self, *event),
    {
        match event {
            ProcessEvent::StdoutLine(line) => self.stdout_line_callback(line.as_str()),
            ProcessEvent::StderrLine(line) => self.stderr_line_callback(line.as_str()),
            ProcessEvent::OutputClosed => ControlFlow::Nothing,
            ProcessEvent::Exited { success } => self.exit_control(*success),
            ProcessEvent::Cancelled => ControlFlow::StopJob("termination signal".to_string()),
        }
    }
}

/// Seconds of uptime after which restart counters start to recover.
pub const RECOVERY_THRESHOLD_SECONDS: u64 = 60;

/// Seconds of uptime that take one off the normal restart counter.
pub const RECOVERY_PERIOD_SECONDS: u64 = 60;

/// The restart counters of one job's supervision, from its start until it
/// stops.
#[derive(Clone, Copy, Debug, PartialEq, Eq, Structural)]
pub struct Supervision {
    /// Normal restarts in a row, less what uptime has recovered.
    pub backoff_restart_count: u64,
    /// Fast restarts since the last sustained uptime.
    pub fast_backoff_restart_count: u64,
}

/// The mathematical content of a [`Supervision`].
pub struct Counters {
    pub restarts: nat,
    pub fast_restarts: nat,
}

impl View for Supervision {
    type V = Counters;

    open spec fn view(&self) -> Counters {
        Counters {
            restarts: self.backoff_restart_count as nat,
            fast_restarts: self.fast_backoff_restart_count as nat,
        }
    }
}

/// The counters after a process ran for `elapsed` seconds: from the
/// threshold on, the normal counter loses one per full period, down to
/// zero, and the fast counter is reset.
pub open spec fn after_recovery(c: Counters, elapsed: nat) -> Counters {
    if elapsed >= RECOVERY_THRESHOLD_SECONDS {
        Counters {
            restarts: (c.restarts - vstd::math::min(
                (elapsed / (RECOVERY_PERIOD_SECONDS as nat)) as int,
                c.restarts as int,
            )) as nat,
            fast_restarts: 0,
        }
    } else {
        c
    }
}

/// What the supervisor does next.
#[derive(Clone, Debug, PartialEq, Eq)]
pub enum Step {
    /// Keep the process running and wait for the next event.
    KeepRunning,
    /// Wait `delay_seconds`, terminate the process, and start it again.
    /// `attempt` counts the restarts in a row on this path, this one included.
    Restart { reason: String, fast: bool, delay_seconds: u64, attempt: u64 },
    /// Terminate the process; the job ends.
    Stop { reason: String },
}

/// The mathematical content of a [`Step`].
pub enum StepView {
    KeepRunning,
    Restart { reason: Seq<char>, fast: bool, delay_seconds: u64, attempt: nat },
    Stop { reason: Seq<char> },
}

impl View for Step {
    type V = StepView;

    open spec fn view(&self) -> StepView {
        match self {
            Step::KeepRunning => StepView::KeepRunning,
            Step::Restart { reason, fast, delay_seconds, attempt } => StepView::Restart {
                reason: reason@,
                fast: *fast,
                delay_seconds: *delay_seconds,
                attempt: *attempt as nat,
            },
            Step::Stop { reason } => StepView::Stop { reason: reason@ },
        }
    }
}

/// The step taken on signal `sig` with counters `c`, after the process ran
/// for `elapsed` seconds.
pub open spec fn step_of(c: Counters, strategy: RestartStrategy, sig: Signal, elapsed: nat) -> StepView {
    let r = after_recovery(c, elapsed);
    match sig {
        Signal::Continue => StepView::KeepRunning,
        Signal::Restart(reason) => StepView::Restart {
            reason,
            fast: false,
            delay_seconds: normal_delay(strategy, r.restarts),
            attempt: r.restarts + 1,
        },
        Signal::FastRestart(reason) => StepView::Restart {
            reason,
            fast: true,
            delay_seconds: fast_delay(strategy, r.fast_restarts),
            attempt: r.fast_restarts + 1,
        },
        Signal::Stop(reason) => StepView::Stop { reason },
    }
}

/// The counters after the step taken on signal `sig`.
pub open spec fn counters_after(c: Counters, sig: Signal, elapsed: nat) -> Counters {
    let r = after_recovery(c, elapsed);
    match sig {
        Signal::Continue => c,
        Signal::Restart(_) => Counters { restarts: r.restarts + 1, fast_restarts: r.fast_restarts },
        Signal::FastRestart(_) => Counters { restarts: r.restarts, fast_restarts: r.fast_restarts + 1 },
        Signal::Stop(_) => r,
    }
}

impl Supervision {
    /// The counters of a freshly started job.
    pub fn new() -> (r: Supervision)
        ensures
            r@.restarts == 0,
            r@.fast_restarts == 0,
    {
        Supervision { backoff_restart_count: 0, fast_backoff_restart_count: 0 }
    }

    /// Lets the counters recover after the process ran for `elapsed_seconds`.
    pub fn recover(&mut self, elapsed_seconds: u64)
        ensures
            final(self)@ == after_recovery(old(self)@, elapsed_seconds as nat),
    {
        if elapsed_seconds >= RECOVERY_THRESHOLD_SECONDS {
            self.fast_backoff_restart_count = 0;
            let periods = elapsed_seconds / RECOVERY_PERIOD_SECONDS;
            let recovery = if periods < self.backoff_restart_count {
                periods
            } else {
                self.backoff_restart_count
            };
            self.backoff_restart_count = self.backoff_restart_count - recovery;
        }
    }

    /// Decides what follows `control`, after the process ran for
    /// `elapsed_seconds`: nothing changes while it keeps running; otherwise
    /// the counters recover first, and a restart waits the backoff delay of
    /// its path and counts on that path.
    pub fn decide(&mut self, strategy: RestartStrategy, control: ControlFlow, elapsed_seconds: u64) -> (r: Step)
        requires
            (control@ is Restart) ==> old(self).backoff_restart_count < u64::MAX,
            (control@ is FastRestart) ==> old(self).fast_backoff_restart_count < u64::MAX,
        ensures
            r@ == step_of(old(self)@, strategy, control@, elapsed_seconds as nat),
            final(self)@ == counters_after(old(self)@, control@, elapsed_seconds as nat),
    {
        match control {
            ControlFlow::Nothing => Step::KeepRunning,
            ControlFlow::RestartCommand(reason) => {
                self.recover(elapsed_seconds);
                let delay_seconds = strategy.delay_seconds(self.backoff_restart_count);
                self.backoff_restart_count = self.backoff_restart_count + 1;
                Step::Restart {
                    reason,
                    fast: false,
                    delay_seconds,
                    attempt: self.backoff_restart_count,
                }
            },
            ControlFlow::FastRestartCommand(reason) => {
                self.recover(elapsed_seconds);
                let delay_seconds = strategy.delay_seconds_fast(self.fast_backoff_restart_count);
                self.fast_backoff_restart_count = self.fast_backoff_restart_count + 1;
                Step::Restart {
                    reason,
                    fast: true,
                    delay_seconds,
                    attempt: self.fast_backoff_restart_count,
                }
            },
            ControlFlow::StopJob(reason) => {
                self.recover(elapsed_seconds);
                Step::Stop { reason }
            },
        }
    }

    /// One step of the job's supervision: the event's control, then the
    /// decision on it.
    pub fn on_event(&mut self, job: &Job, event: &ProcessEvent, elapsed_seconds: u64) -> (r: Step)
        requires
            (event_signal(*job, *event) is Restart) ==> old(self).backoff_restart_count < u64::MAX,
            (event_signal(*job, *event) is FastRestart) ==> old(self).fast_backoff_restart_count
                < u64::MAX,
        ensures
            r@ == step_of(
                old(self)@,
                job.restart_strategy,
                event_signal(*job, *event),
                elapsed_seconds as nat,
            ),
            final(self)@ == counters_after(old(self)@, event_signal(*job, *event), elapsed_seconds as nat),
    {
        let control = job.control_for_event(event);
        self.decide(job.restart_strategy, control, elapsed_seconds)
    }
}

/// The step restarts the process.
pub open spec fn is_restart(s: StepView) -> bool {
    s is Restart
}

/// The step taken when the job's process exits.
pub open spec fn exit_step(job: Job, c: Counters, success: bool, elapsed: nat) -> StepView {
    step_of(c, job.restart_strategy, event_signal(job, ProcessEvent::Exited { success }), elapsed)
}

/// Restart policy: when the process exits, the job restarts exactly when its
/// restart behaviour permits it for that outcome. `Never` never restarts,
/// `Always` restarts after both outcomes, `OnSuccess` only after success and
/// `OnFailure` only after failure.
pub proof fn lemma_restart_policy(job: Job, c: Counters, success: bool, elapsed: nat)
    ensures
        is_restart(exit_step(job, c, success, elapsed)) == if success {
            restarts_on_success(job.restart)
        } else {
            restarts_on_failure(job.restart)
        },
        job.restart == RestartBehavior::Never ==> !is_restart(exit_step(job, c, success, elapsed)),
        job.restart == RestartBehavior::Always ==> is_restart(exit_step(job, c, success, elapsed)),
        job.restart == RestartBehavior::OnSuccess ==> (is_restart(exit_step(job, c, success, elapsed))
            == success),
        job.restart == RestartBehavior::OnFailure ==> (is_restart(exit_step(job, c, success, elapsed))
            == !success),
{
}

/// Cancellation always wins: whatever the job's restart behaviour, hooks and
/// counters, a cancellation stops the job for the termination reason.
pub proof fn lemma_cancellation_stops(job: Job, c: Counters, elapsed: nat)
    ensures
        step_of(c, job.restart_strategy, event_signal(job, ProcessEvent::Cancelled), elapsed) == (
        StepView::Stop { reason: cancellation_reason() }),
{
}

/// The stream a line comes from: standard output or standard error.
pub open spec fn line_stream(stdout: bool) -> Stream {
    if stdout {
        Stream::Stdout
    } else {
        Stream::Stderr
    }
}

/// The event of a line read from standard output or standard error.
pub open spec fn line_event(line: String, stdout: bool) -> ProcessEvent {
    if stdout {
        ProcessEvent::StdoutLine(line)
    } else {
        ProcessEvent::StderrLine(line)
    }
}

/// A hook whose action is to stop ends the job as soon as it is the first to
/// fire on a line, whether or not the process has exited, with the hook's
/// name as the reason.
pub proof fn lemma_stop_hook_stops(job: Job, c: Counters, line: String, stdout: bool, elapsed: nat, k: int)
    requires
        0 <= k < job.hooks().len(),
        job.hooks()[k].action == Action::Stop,
        hook_fires(job.hooks()[k], line@, line_stream(stdout)),
        forall|j: int| 0 <= j < k ==> !hook_fires(#[trigger] job.hooks()[j], line@, line_stream(stdout)),
    ensures
        step_of(c, job.restart_strategy, event_signal(job, line_event(line, stdout)), elapsed) == (
        StepView::Stop { reason: job.hooks()[k].name }),
{
    lemma_first_match_wins(job.hooks(), line@, line_stream(stdout), k);
}

} // verus!
