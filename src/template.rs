use vstd::prelude::*;

use crate::event::{hooks_view, Action, Event, Hook, HookView, RestartStrategy, Stream};
use crate::job::Job;

verus! {

/// A ready-made configuration that can be laid over a job.
#[derive(Clone, Copy, Debug, PartialEq, Eq, Structural)]
pub enum Template {
    /// For port-forwarding jobs that lose their connection now and then.
    PortForward,
}

/// A hook that listens on both streams.
pub open spec fn any_stream_hook(name: Seq<char>, contains: Seq<char>, action: Action) -> HookView {
    HookView { name, stream: Stream::Any, contains, action }
}

/// The hooks a template appends to a job, in order.
pub open spec fn template_hooks(t: Template) -> Seq<HookView> {
    match t {
        Template::PortForward => seq![
            any_stream_hook("lost connection hook"@, "lost connection to pod"@, Action::FastRestart),
            any_stream_hook("pending hook"@, "Current status=Pending"@, Action::FastRestart),
            any_stream_hook("timeout hook"@, "Timeout occurred"@, Action::FastRestart),
            any_stream_hook(
                "container not running hook"@,
                "container not running"@,
                Action::Restart,
            ),
        ],
    }
}

/// The restart strategy a template sets.
pub open spec fn template_strategy(t: Template) -> RestartStrategy {
    match t {
        Template::PortForward => RestartStrategy::ExponentialBackoff,
    }
}

/// Every field but the hooks and the restart strategy is the same.
pub open spec fn same_but_hooks_and_strategy(a: Job, b: Job) -> bool {
    &&& a.name == b.name
    &&& a.group == b.group
    &&& a.program == b.program
    &&& a.args == b.args
    &&& a.working_directory == b.working_directory
    &&& a.restart == b.restart
    &&& a.template == b.template
    &&& a.enabled == b.enabled
}

fn any_stream_hook_of(name: &str, contains: &str, action: Action) -> (r: Hook)
    ensures
        r@ == any_stream_hook(name@, contains@, action),
{
    Hook {
        name: name.to_string(),
        event: Event::DetectSubstring { stream: Stream::Any, contains: contains.to_string() },
        action,
    }
}

fn push_hook(hooks: &mut Vec<Hook>, hook: Hook)
    ensures
        hooks_view(final(hooks)@) == hooks_view(old(hooks)@).push(hook@),
{
    hooks.push(hook);
    assert(hooks_view(hooks@) =~= hooks_view(old(hooks)@).push(hook@));
}

impl Job {
    /// Lays `template` over the job: sets its restart strategy and appends
    /// the template's hooks after the job's own.
    pub fn apply_template(&mut self, template: Template)
        ensures
            final(self).restart_strategy == template_strategy(template),
            final(self).hooks() == old(self).hooks() + template_hooks(template),
            same_but_hooks_and_strategy(*final(self), *old(self)),
    {
        match template {
            Template::PortForward => {
                self.restart_strategy = RestartStrategy::ExponentialBackoff;
                push_hook(
                    &mut self.event_hooks,
                    any_stream_hook_of(
                        "lost connection hook",
                        "lost connection to pod",
                        Action::FastRestart,
                    ),
                );
                push_hook(
                    &mut self.event_hooks,
                    any_stream_hook_of("pending hook", "Current status=Pending", Action::FastRestart),
                );
                push_hook(
                    &mut self.event_hooks,
                    any_stream_hook_of("timeout hook", "Timeout occurred", Action::FastRestart),
                );
                push_hook(
                    &mut self.event_hooks,
                    any_stream_hook_of(
                        "container not running hook",
                        "container not running",
                        Action::Restart,
                    ),
                );
                assert(self.hooks() =~= old(self).hooks() + template_hooks(template));
            },
        }
    }

    /// Applies the template the job names, if any; a job without one is
    /// left as it is.
    pub fn apply_configured_template(&mut self)
        ensures
            match old(self).template {
                Some(t) => {
                    &&& final(self).restart_strategy == template_strategy(t)
                    &&& final(self).hooks() == old(self).hooks() + template_hooks(t)
                    &&& same_but_hooks_and_strategy(*final(self), *old(self))
                },
                None => *final(self) == *old(self),
            },
    {
        match self.template {
            Some(t) => self.apply_template(t),
            None => {},
        }
    }
}

} // verus!
