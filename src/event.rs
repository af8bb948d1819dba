use vstd::prelude::*;

verus! {

/// How long to wait before restarting a job.
#[derive(Clone, Copy, Debug, PartialEq, Eq, Structural)]
pub enum RestartStrategy {
    /// Restart without delay.
    Immediate,
    /// Restart after a delay that grows with the number of recent restarts.
    ExponentialBackoff,
}

/// Delays, in seconds, of the normal restart path, indexed by attempt count.
pub open spec fn normal_backoff_table() -> Seq<u64> {
    seq![0u64, 0, 0, 1, 2, 4, 8, 15, 30]
}

/// Delay of the normal restart path once the attempt count runs past the table.
pub const NORMAL_BACKOFF_CAP: u64 = 60;

/// Delays, in seconds, of the fast restart path, indexed by attempt count.
pub open spec fn fast_backoff_table() -> Seq<u64> {
    seq![0u64, 0, 0, 1, 2, 3, 5]
}

/// Delay of the fast restart path once the attempt count runs past the table.
pub const FAST_BACKOFF_CAP: u64 = 8;

/// Looks `n` up in `table`, falling back to `cap` past its end.
pub open spec fn table_delay(table: Seq<u64>, cap: u64, n: nat) -> u64 {
    if n < table.len() {
        table[n as int]
    } else {
        cap
    }
}

/// The delay before a normal restart after `n` consecutive restarts.
pub open spec fn normal_delay(strategy: RestartStrategy, n: nat) -> u64 {
    match strategy {
        RestartStrategy::Immediate => 0,
        RestartStrategy::ExponentialBackoff => table_delay(
            normal_backoff_table(),
            NORMAL_BACKOFF_CAP,
            n,
        ),
    }
}

/// The delay before a fast restart after `n` consecutive fast restarts.
pub open spec fn fast_delay(strategy: RestartStrategy, n: nat) -> u64 {
    match strategy {
        RestartStrategy::Immediate => 0,
        RestartStrategy::ExponentialBackoff => table_delay(fast_backoff_table(), FAST_BACKOFF_CAP, n),
    }
}

impl Default for RestartStrategy {
    fn default() -> (r: RestartStrategy)
        ensures
            r == RestartStrategy::ExponentialBackoff,
    {
        RestartStrategy::ExponentialBackoff
    }
}

impl RestartStrategy {
    /// Seconds to wait before a normal restart, given how many normal
    /// restarts happened in a row before it.
    pub fn delay_seconds(self, restarts: u64) -> (r: u64)
        ensures
            r == normal_delay(self, restarts as nat),
    {
        match self {
            RestartStrategy::Immediate => 0,
            RestartStrategy::ExponentialBackoff => {
                let table: [u64; 9] = [0, 0, 0, 1, 2, 4, 8, 15, 30];
                proof {
                    assert(table@ =~= normal_backoff_table());
                }
                if restarts < 9 {
                    table[restarts as usize]
                } else {
                    NORMAL_BACKOFF_CAP
                }
            },
        }
    }

    /// Seconds to wait before a fast restart, given how many fast restarts
    /// happened in a row before it.
    pub fn delay_seconds_fast(self, restarts: u64) -> (r: u64)
        ensures
            r == fast_delay(self, restarts as nat),
    {
        match self {
            RestartStrategy::Immediate => 0,
            RestartStrategy::ExponentialBackoff => {
                let table: [u64; 7] = [0, 0, 0, 1, 2, 3, 5];
                proof {
                    assert(table@ =~= fast_backoff_table());
                }
                if restarts < 7 {
                    table[restarts as usize]
                } else {
                    FAST_BACKOFF_CAP
                }
            },
        }
    }
}

/// An output stream of a job's process, or either of them.
#[derive(Clone, Copy, Debug, PartialEq, Eq, Structural)]
pub enum Stream {
    Stdout,
    Stderr,
    Any,
}

impl Default for Stream {
    fn default() -> (r: Stream)
        ensures
            r == Stream::Any,
    {
        Stream::Any
    }
}

/// What a hook reacts to.
#[derive(Clone, Debug)]
pub enum Event {
    /// A line on `stream` that contains `contains` (plain, case-sensitive).
    DetectSubstring { stream: Stream, contains: String },
}

/// What a triggered hook asks for.
#[derive(Clone, Copy, Debug, PartialEq, Eq, Structural)]
pub enum Action {
    Restart,
    FastRestart,
    Stop,
}

/// A named rule that maps matching output lines to an action.
#[derive(Clone, Debug)]
pub struct Hook {
    pub name: String,
    pub event: Event,
    pub action: Action,
}

/// The mathematical content of a [`Hook`].
pub struct HookView {
    pub name: Seq<char>,
    pub stream: Stream,
    pub contains: Seq<char>,
    pub action: Action,
}

impl View for Hook {
    type V = HookView;

    open spec fn view(&self) -> HookView {
        match self.event {
            Event::DetectSubstring { stream, contains } => HookView {
                name: self.name@,
                stream,
                contains: contains@,
                action: self.action,
            },
        }
    }
}

/// The views of a sequence of hooks, in order.
pub open spec fn hooks_view(hooks: Seq<Hook>) -> Seq<HookView> {
    hooks.map_values(|h: Hook| h@)
}

/// The outcome of looking at one piece of a job's activity.
#[derive(Clone, Debug, PartialEq, Eq)]
pub enum ControlFlow {
    /// Keep the process running.
    Nothing,
    /// Restart on the fast path, for the given reason.
    FastRestartCommand(String),
    /// Restart on the normal path, for the given reason.
    RestartCommand(String),
    /// Stop the job for good, for the given reason.
    StopJob(String),
}

/// The mathematical content of a [`ControlFlow`].
pub enum Signal {
    Continue,
    FastRestart(Seq<char>),
    Restart(Seq<char>),
    Stop(Seq<char>),
}

impl View for ControlFlow {
    type V = Signal;

    open spec fn view(&self) -> Signal {
        match self {
            ControlFlow::Nothing => Signal::Continue,
            ControlFlow::FastRestartCommand(r) => Signal::FastRestart(r@),
            ControlFlow::RestartCommand(r) => Signal::Restart(r@),
            ControlFlow::StopJob(r) => Signal::Stop(r@),
        }
    }
}

/// `pat` occurs in `s` as a contiguous run of characters.
pub open spec fn is_substring(pat: Seq<char>, s: Seq<char>) -> bool {
    exists|i: int| 0 <= i <= s.len() - pat.len() && #[trigger] s.subrange(i, i + pat.len()) == pat
}

/// A hook listening on `hook_stream` hears a line from `line_stream`.
pub open spec fn stream_accepts(hook_stream: Stream, line_stream: Stream) -> bool {
    hook_stream == Stream::Any || hook_stream == line_stream
}

/// The hook fires on `line`, read from `stream`.
pub open spec fn hook_fires(h: HookView, line: Seq<char>, stream: Stream) -> bool {
    stream_accepts(h.stream, stream) && is_substring(h.contains, line)
}

/// The signal a fired hook produces: its action, carrying its name.
pub open spec fn hook_signal(h: HookView) -> Signal {
    match h.action {
        Action::Restart => Signal::Restart(h.name),
        Action::FastRestart => Signal::FastRestart(h.name),
        Action::Stop => Signal::Stop(h.name),
    }
}

/// First-match evaluation of `hooks`, starting at position `i`.
pub open spec fn evaluate_from(hooks: Seq<HookView>, line: Seq<char>, stream: Stream, i: int) -> Signal
    decreases hooks.len() - i,
{
    if i < 0 || i >= hooks.len() {
        Signal::Continue
    } else if hook_fires(hooks[i], line, stream) {
        hook_signal(hooks[i])
    } else {
        evaluate_from(hooks, line, stream, i + 1)
    }
}

/// The signal that `hooks` produce for `line` from `stream`: that of the
/// first hook in order that fires, or `Continue` if none does.
pub open spec fn evaluate(hooks: Seq<HookView>, line: Seq<char>, stream: Stream) -> Signal {
    evaluate_from(hooks, line, stream, 0)
}

/// Relies on `str::contains` with a `&str` pattern: true exactly when the
/// pattern occurs in the string (an empty pattern occurs everywhere).
#[verifier::external_body]
fn str_contains(s: &str, pat: &str) -> (r: bool)
    ensures
        r == is_substring(pat@, s@),
{
    s.contains(pat)
}

/// Whether `hook` fires on `line`, read from `stream`.
pub fn hook_matches(hook: &Hook, line: &str, stream: Stream) -> (r: bool)
    ensures
        r == hook_fires(hook@, line@, stream),
{
    match &hook.event {
        Event::DetectSubstring { stream: hook_stream, contains } => {
            let listening = match hook_stream {
                Stream::Any => true,
                Stream::Stdout => match stream {
                    Stream::Stdout => true,
                    _ => false,
                },
                Stream::Stderr => match stream {
                    Stream::Stderr => true,
                    _ => false,
                },
            };
            listening && str_contains(line, contains.as_str())
        },
    }
}

/// The signal of a fired hook: its action, carrying its name as the reason.
pub fn hook_control(hook: &Hook) -> (r: ControlFlow)
    ensures
        r@ == hook_signal(hook@),
{
    let name = hook.name.clone();
    match hook.action {
        Action::Restart => ControlFlow::RestartCommand(name),
        Action::FastRestart => ControlFlow::FastRestartCommand(name),
        Action::Stop => ControlFlow::StopJob(name),
    }
}

/// Evaluates `hooks` in order against `line`, read from `stream`: the first
/// hook that fires decides, and with none the process keeps running.
pub fn evaluate_hooks(hooks: &Vec<Hook>, line: &str, stream: Stream) -> (r: ControlFlow)
    ensures
        r@ == evaluate(hooks_view(hooks@), line@, stream),
{
    let ghost hv = hooks_view(hooks@);
    let mut i: usize = 0;
    while i < hooks.len()
        invariant
            0 <= i <= hooks.len(),
            hv == hooks_view(hooks@),
            evaluate_from(hv, line@, stream, i as int) == evaluate(hv, line@, stream),
        decreases hooks.len() - i,
    {
        let hook = &hooks[i];
        assert(hv[i as int] == hook@);
        if hook_matches(hook, line, stream) {
            return hook_control(hook);
        }
        i = i + 1;
    }
    ControlFlow::Nothing
}

/// From any position `i` up to `k`, evaluation reaches the hook at `k` when
/// no hook in between fires.
proof fn lemma_evaluate_reaches(hooks: Seq<HookView>, line: Seq<char>, stream: Stream, i: int, k: int)
    requires
        0 <= i <= k <= hooks.len(),
        forall|j: int| i <= j < k ==> !hook_fires(#[trigger] hooks[j], line, stream),
    ensures
        evaluate_from(hooks, line, stream, i) == evaluate_from(hooks, line, stream, k),
    decreases k - i,
{
    if i < k {
        lemma_evaluate_reaches(hooks, line, stream, i + 1, k);
    }
}

/// First match wins: when the hook at position `k` fires and none before it
/// does, evaluation yields that hook's signal, whatever the hooks after it say.
pub proof fn lemma_first_match_wins(hooks: Seq<HookView>, line: Seq<char>, stream: Stream, k: int)
    requires
        0 <= k < hooks.len(),
        hook_fires(hooks[k], line, stream),
        forall|j: int| 0 <= j < k ==> !hook_fires(#[trigger] hooks[j], line, stream),
    ensures
        evaluate(hooks, line, stream) == hook_signal(hooks[k]),
{
    lemma_evaluate_reaches(hooks, line, stream, 0, k);
}

/// When no hook fires on a line, the process keeps running.
pub proof fn lemma_no_match_continues(hooks: Seq<HookView>, line: Seq<char>, stream: Stream)
    requires
        forall|j: int| 0 <= j < hooks.len() ==> !hook_fires(#[trigger] hooks[j], line, stream),
    ensures
        evaluate(hooks, line, stream) == Signal::Continue,
{
    lemma_evaluate_reaches(hooks, line, stream, 0, hooks.len() as int);
}

} // verus!
