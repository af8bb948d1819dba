use vstd::prelude::*;

use crate::event::{
    evaluate, evaluate_hooks, hooks_view, ControlFlow, Hook, HookView, RestartStrategy, Signal,
    Stream,
};
use crate::template::Template;

verus! {

/// Which exit outcomes of a job's process permit an automatic restart.
#[derive(Clone, Copy, Debug, PartialEq, Eq, Structural)]
pub enum RestartBehavior {
    Always,
    OnSuccess,
    OnFailure,
    Never,
}

impl Default for RestartBehavior {
    fn default() -> (r: RestartBehavior)
        ensures
            r == RestartBehavior::Always,
    {
        RestartBehavior::Always
    }
}

/// A process exit that reported success permits a restart.
pub open spec fn restarts_on_success(b: RestartBehavior) -> bool {
    b == RestartBehavior::Always || b == RestartBehavior::OnSuccess
}

/// A process exit that reported failure permits a restart.
pub open spec fn restarts_on_failure(b: RestartBehavior) -> bool {
    b == RestartBehavior::Always || b == RestartBehavior::OnFailure
}

/// The operator-facing wording of a restart behaviour.
pub open spec fn behaviour_label(b: RestartBehavior) -> Seq<char> {
    match b {
        RestartBehavior::Always => "always"@,
        RestartBehavior::OnSuccess => "on success"@,
        RestartBehavior::OnFailure => "on failure"@,
        RestartBehavior::Never => "never"@,
    }
}

/// The reason given when a process exit reported success.
pub open spec fn success_reason() -> Seq<char> {
    "success"@
}

/// The reason given when a process exit reported failure.
pub open spec fn failure_reason() -> Seq<char> {
    "failure"@
}

/// The signal that a process exit produces under restart behaviour `b`:
/// a restart where `b` permits one for this outcome, a stop otherwise,
/// with the outcome as the reason.
pub open spec fn exit_signal(b: RestartBehavior, success: bool) -> Signal {
    if success {
        if restarts_on_success(b) {
            Signal::Restart(success_reason())
        } else {
            Signal::Stop(success_reason())
        }
    } else {
        if restarts_on_failure(b) {
            Signal::Restart(failure_reason())
        } else {
            Signal::Stop(failure_reason())
        }
    }
}

/// A named process definition: what to run, where, and how to keep it running.
#[derive(Clone, Debug)]
pub struct Job {
    /// Unique among all stored jobs.
    pub name: String,
    /// Shared by the jobs that are selected together.
    pub group: String,
    pub program: String,
    pub args: Vec<String>,
    /// The directory the process starts in.
    pub working_directory: String,
    pub restart: RestartBehavior,
    pub restart_strategy: RestartStrategy,
    /// Evaluated in this order; the first hook that fires decides.
    pub event_hooks: Vec<Hook>,
    /// Applied on top of the stored definition when the job is loaded.
    pub template: Option<Template>,
    /// Disabled jobs are left out when jobs are run in a batch.
    pub enabled: bool,
}

/// The hooks of `hooks` not named `name`, in order.
pub open spec fn without_hook(hooks: Seq<HookView>, name: Seq<char>) -> Seq<HookView> {
    hooks.filter(|h: HookView| h.name != name)
}

/// Every field but the hooks is the same.
pub open spec fn same_but_hooks(a: Job, b: Job) -> bool {
    &&& a.name == b.name
    &&& a.group == b.group
    &&& a.program == b.program
    &&& a.args == b.args
    &&& a.working_directory == b.working_directory
    &&& a.restart == b.restart
    &&& a.restart_strategy == b.restart_strategy
    &&& a.template == b.template
    &&& a.enabled == b.enabled
}

impl Job {
    /// The views of the job's hooks, in order.
    pub open spec fn hooks(&self) -> Seq<HookView> {
        hooks_view(self.event_hooks@)
    }

    /// Whether a successful exit of the process permits a restart.
    pub fn restart_on_success(&self) -> (r: bool)
        ensures
            r == restarts_on_success(self.restart),
    {
        match self.restart {
            RestartBehavior::Always | RestartBehavior::OnSuccess => true,
            RestartBehavior::OnFailure | RestartBehavior::Never => false,
        }
    }

    /// Whether a failed exit of the process permits a restart.
    pub fn restart_on_failure(&self) -> (r: bool)
        ensures
            r == restarts_on_failure(self.restart),
    {
        match self.restart {
            RestartBehavior::Always | RestartBehavior::OnFailure => true,
            RestartBehavior::OnSuccess | RestartBehavior::Never => false,
        }
    }

    /// The operator-facing wording of the job's restart behaviour.
    pub fn restart_behaviour(&self) -> (r: &'static str)
        ensures
            r@ == behaviour_label(self.restart),
    {
        match self.restart {
            RestartBehavior::Always => "always",
            RestartBehavior::OnSuccess => "on success",
            RestartBehavior::OnFailure => "on failure",
            RestartBehavior::Never => "never",
        }
    }

    /// The job's hooks evaluated against a line of standard output.
    pub fn stdout_line_callback(&self, line: &str) -> (r: ControlFlow)
        ensures
            r@ == evaluate(self.hooks(), line@, Stream::Stdout),
    {
        evaluate_hooks(&self.event_hooks, line, Stream::Stdout)
    }

    /// The job's hooks evaluated against a line of standard error.
    pub fn stderr_line_callback(&self, line: &str) -> (r: ControlFlow)
        ensures
            r@ == evaluate(self.hooks(), line@, Stream::Stderr),
    {
        evaluate_hooks(&self.event_hooks, line, Stream::Stderr)
    }

    /// What the exit of the job's process calls for, by whether the exit
    /// reported success (an exit that could not be observed counts as a
    /// failure).
    pub fn exit_control(&self, success: bool) -> (r: ControlFlow)
        ensures
            r@ == exit_signal(self.restart, success),
    {
        if success {
            let reason = "success".to_string();
            if self.restart_on_success() {
                ControlFlow::RestartCommand(reason)
            } else {
                ControlFlow::StopJob(reason)
            }
        } else {
            let reason = "failure".to_string();
            if self.restart_on_failure() {
                ControlFlow::RestartCommand(reason)
            } else {
                ControlFlow::StopJob(reason)
            }
        }
    }
}

impl Job {
    /// Removes every hook named `name`, keeping the order of the others;
    /// tells whether there was one.
    pub fn remove_hook(&mut self, name: &String) -> (r: bool)
        ensures
            final(self).hooks() == without_hook(old(self).hooks(), name@),
            r == (exists|i: int| 0 <= i < old(self).hooks().len() && #[trigger] old(self).hooks()[i].name == name@),
            same_but_hooks(*final(self), *old(self)),
    {
        let ghost all = old(self).hooks();
        let ghost pred = |h: HookView| h.name != name@;
        let mut rest: Vec<Hook> = Vec::new();
        std::mem::swap(&mut rest, &mut self.event_hooks);
        let ghost rest0 = rest@;
        assert(hooks_view(rest0) == all);
        let mut kept: Vec<Hook> = Vec::new();
        let mut found = false;
        let ghost mut k: int = 0;
        assert(all.subrange(0, 0) =~= Seq::<HookView>::empty());
        assert(rest@ =~= rest0.subrange(0, rest0.len() as int));
        while rest.len() > 0
            invariant
                0 <= k <= rest0.len(),
                all.len() == rest0.len(),
                all == hooks_view(rest0),
                rest@ == rest0.subrange(k, rest0.len() as int),
                hooks_view(kept@) == all.subrange(0, k).filter(pred),
                pred == (|h: HookView| h.name != name@),
                found == (exists|i: int| 0 <= i < k && #[trigger] all[i].name == name@),
            decreases rest.len(),
        {
            let hook = rest.remove(0);
            proof {
                assert(hook == rest0[k]);
                assert(hook@ == all[k]);
                assert(all.subrange(0, k + 1) =~= all.subrange(0, k).push(hook@));
                all.subrange(0, k).lemma_filter_push(hook@, pred);
                assert(rest@ =~= rest0.subrange(k + 1, rest0.len() as int));
            }
            let ghost kept_before = kept@;
            if hook.name == *name {
                found = true;
            } else {
                kept.push(hook);
                assert(hooks_view(kept@) =~= hooks_view(kept_before).push(hook@));
            }
            proof {
                k = k + 1;
            }
        }
        assert(all.subrange(0, k) =~= all);
        self.event_hooks = kept;
        found
    }

    /// Adds `hook` after all others, replacing any hook of the same name.
    pub fn add_hook(&mut self, hook: Hook)
        ensures
            final(self).hooks() == without_hook(old(self).hooks(), hook@.name).push(hook@),
            same_but_hooks(*final(self), *old(self)),
    {
        self.remove_hook(&hook.name);
        let ghost before = self.hooks();
        self.event_hooks.push(hook);
        assert(self.hooks() =~= before.push(hook@));
    }
}

} // verus!
