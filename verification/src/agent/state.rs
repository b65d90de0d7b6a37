//! The state of the agent between runs: its adapter and project, whether a run is
//! going on, which run's cancellation token is live, and which runs' tokens have
//! been cancelled.
//!
//! Each run is known by a number, and its cancellation token by that number: the
//! token of run `t` is cancelled exactly when `t` is among `cancelled`.
use vstd::prelude::*;

use crate::text::str_eq;

verus! {

broadcast use vstd::string::group_string_axioms;

/// The agent's state. `A` is the provider adapter.
#[derive(Debug)]
pub struct AgentState<A> {
    pub adapter: Option<A>,
    pub project_path: Option<String>,
    /// The run whose cancellation token is live, if any.
    pub cancel_token: Option<u64>,
    pub is_running: bool,
    pub config_stale: bool,
    /// How many runs have started.
    pub runs_started: u64,
    /// The runs whose cancellation tokens have been cancelled, in the order of it.
    pub cancelled: Vec<u64>,
}

/// The project path of a state, as text.
pub open spec fn path_view(p: Option<String>) -> Option<Seq<char>> {
    match p {
        Some(s) => Some(s@),
        None => None,
    }
}

/// The adapter must be made again for `project_path`: the configuration changed,
/// there is no adapter, or it was made for another project.
pub open spec fn reload_needed<A>(s: AgentState<A>, project_path: Seq<char>) -> bool {
    s.config_stale || s.adapter is None || path_view(s.project_path) != Some(project_path)
}

/// What a state keeps between runs: every cancelled run and the live run were
/// started before.
pub open spec fn state_wf<A>(s: AgentState<A>) -> bool {
    &&& forall|i: int| 0 <= i < s.cancelled@.len() ==> #[trigger] s.cancelled@[i] < s.runs_started
    &&& (s.cancel_token matches Some(t) ==> t < s.runs_started)
}

/// `after` is `before` once run `run` has started: the run gets the next number,
/// its token is the live one, the agent is running, and nothing else changes.
pub open spec fn run_started<A>(before: AgentState<A>, after: AgentState<A>, run: u64) -> bool {
    &&& run == before.runs_started
    &&& after.runs_started == before.runs_started + 1
    &&& after.cancel_token == Some(run)
    &&& after.is_running
    &&& after.cancelled@ == before.cancelled@
    &&& after.adapter == before.adapter
    &&& after.project_path == before.project_path
    &&& after.config_stale == before.config_stale
}

/// The cancelled runs after the live token of `before`, if any, is cancelled.
pub open spec fn cancel_live(before: Seq<u64>, live: Option<u64>) -> Seq<u64> {
    match live {
        Some(t) => before.push(t),
        None => before,
    }
}

/// `after` is `before` once the run going on is cancelled: its token is cancelled,
/// no token is live, nothing runs, and nothing else changes.
pub open spec fn run_cancelled<A>(before: AgentState<A>, after: AgentState<A>) -> bool {
    &&& after.cancelled@ == cancel_live(before.cancelled@, before.cancel_token)
    &&& after.cancel_token is None
    &&& !after.is_running
    &&& after.runs_started == before.runs_started
    &&& after.adapter == before.adapter
    &&& after.project_path == before.project_path
    &&& after.config_stale == before.config_stale
}

/// `after` is `before` once the run going on has ended: no token is live, nothing
/// runs, and no token is cancelled.
pub open spec fn run_finished<A>(before: AgentState<A>, after: AgentState<A>) -> bool {
    &&& after.cancelled@ == before.cancelled@
    &&& after.cancel_token is None
    &&& !after.is_running
    &&& after.runs_started == before.runs_started
    &&& after.adapter == before.adapter
    &&& after.project_path == before.project_path
    &&& after.config_stale == before.config_stale
}

impl<A> AgentState<A> {
    /// No adapter, no project, no run, nothing cancelled.
    pub fn new() -> (r: Self)
        ensures
            r.adapter is None,
            r.project_path is None,
            r.cancel_token is None,
            !r.is_running,
            !r.config_stale,
            r.runs_started == 0,
            r.cancelled@ == Seq::<u64>::empty(),
            state_wf(r),
    {
        AgentState {
            adapter: None,
            project_path: None,
            cancel_token: None,
            is_running: false,
            config_stale: false,
            runs_started: 0,
            cancelled: Vec::new(),
        }
    }

    /// Notes that the configuration changed.
    pub fn mark_config_stale(&mut self)
        ensures
            final(self).config_stale,
            final(self).adapter == old(self).adapter,
            final(self).project_path == old(self).project_path,
            final(self).cancel_token == old(self).cancel_token,
            final(self).is_running == old(self).is_running,
            final(self).runs_started == old(self).runs_started,
            final(self).cancelled@ == old(self).cancelled@,
    {
        self.config_stale = true;
    }

    /// Whether the adapter must be made again for a project.
    pub fn needs_reload(&self, project_path: &str) -> (r: bool)
        ensures
            r == reload_needed(*self, project_path@),
    {
        if self.config_stale || self.adapter.is_none() {
            return true;
        }
        match &self.project_path {
            Some(p) => !str_eq(p.as_str(), project_path),
            None => true,
        }
    }

    /// Installs an adapter made for a project; the configuration is current again.
    pub fn initialize(&mut self, adapter: A, project_path: &str)
        ensures
            final(self).adapter == Some(adapter),
            path_view(final(self).project_path) == Some(project_path@),
            !final(self).config_stale,
            final(self).cancel_token == old(self).cancel_token,
            final(self).is_running == old(self).is_running,
            final(self).runs_started == old(self).runs_started,
            final(self).cancelled@ == old(self).cancelled@,
    {
        self.adapter = Some(adapter);
        self.project_path = Some(crate::text::owned(project_path));
        self.config_stale = false;
    }

    /// The adapter, if one is installed.
    pub fn get_adapter(&self) -> (r: Option<&A>)
        ensures
            match self.adapter {
                Some(a) => r == Some(&a),
                None => r is None,
            },
    {
        match &self.adapter {
            Some(a) => Some(a),
            None => None,
        }
    }

    /// Whether the cancellation token of a run has been cancelled.
    pub fn is_cancelled(&self, run: u64) -> (r: bool)
        ensures
            r == self.cancelled@.contains(run),
    {
        let mut i: usize = 0;
        while i < self.cancelled.len()
            invariant
                i <= self.cancelled@.len(),
                forall|j: int| 0 <= j < i ==> self.cancelled@[j] != run,
            decreases self.cancelled@.len() - i,
        {
            if self.cancelled[i] == run {
                return true;
            }
            i = i + 1;
        }
        false
    }

    /// Starts a run: it gets a new number, its token is the live one and is not
    /// cancelled, and the agent is running.
    pub fn start_run(&mut self) -> (r: u64)
        requires
            old(self).runs_started < u64::MAX,
        ensures
            run_started(*old(self), *final(self), r),
            state_wf(*old(self)) ==> state_wf(*final(self)) && !final(self).cancelled@.contains(r),
    {
        let run = self.runs_started;
        self.runs_started = self.runs_started + 1;
        self.cancel_token = Some(run);
        self.is_running = true;
        run
    }

    /// Cancels the run going on: the live token, if any, is cancelled; afterwards
    /// no token is live and nothing runs.
    pub fn cancel(&mut self)
        ensures
            run_cancelled(*old(self), *final(self)),
            state_wf(*old(self)) ==> state_wf(*final(self)),
    {
        match self.cancel_token {
            Some(t) => self.cancelled.push(t),
            None => {},
        }
        self.cancel_token = None;
        self.is_running = false;
    }

    /// Ends the run going on without cancelling its token.
    pub fn finish_run(&mut self)
        ensures
            run_finished(*old(self), *final(self)),
            state_wf(*old(self)) ==> state_wf(*final(self)),
    {
        self.cancel_token = None;
        self.is_running = false;
    }

    /// Forgets everything: cancels the run going on, as `cancel` does, and drops
    /// the adapter and project.
    pub fn clear(&mut self)
        ensures
            final(self).cancelled@ == cancel_live(old(self).cancelled@, old(self).cancel_token),
            final(self).cancel_token is None,
            !final(self).is_running,
            final(self).adapter is None,
            final(self).project_path is None,
            !final(self).config_stale,
            final(self).runs_started == old(self).runs_started,
            state_wf(*old(self)) ==> state_wf(*final(self)),
    {
        self.cancel();
        self.adapter = None;
        self.project_path = None;
        self.config_stale = false;
    }
}

impl<A> Default for AgentState<A> {
    fn default() -> (r: Self)
        ensures
            r.adapter is None,
            r.project_path is None,
            r.cancel_token is None,
            !r.is_running,
            !r.config_stale,
            r.runs_started == 0,
            r.cancelled@ == Seq::<u64>::empty(),
            state_wf(r),
    {
        Self::new()
    }
}

/// A state just initialized for a project needs no reload for it, and needs one
/// for every project once the configuration is marked stale.
pub proof fn law_reload_after_initialize<A>(s: AgentState<A>, project_path: Seq<char>, other: Seq<char>)
    requires
        s.adapter is Some,
        path_view(s.project_path) == Some(project_path),
        !s.config_stale,
    ensures
        !reload_needed(s, project_path),
        reload_needed(AgentState { config_stale: true, ..s }, other),
{
}

/// Cancelling while a run goes on cancels that run's token and stops the agent;
/// cancelling once more, when no run goes on, cancels nothing further.
pub proof fn law_cancel_cancels_live_run<A>(
    s0: AgentState<A>,
    s1: AgentState<A>,
    s2: AgentState<A>,
    run: u64,
)
    requires
        run_started(s0, s1, run),
        run_cancelled(s1, s2),
    ensures
        s2.cancelled@.contains(run),
        !s2.is_running,
        s2.cancel_token is None,
        forall|s3: AgentState<A>| run_cancelled(s2, s3) ==> s3.cancelled@ == s2.cancelled@,
{
    assert(s2.cancelled@[s2.cancelled@.len() - 1] == run);
}

/// A run that ended by `finish_run` keeps its token uncancelled when a later run
/// is cancelled; only the later run's token is cancelled, and the two runs differ.
pub proof fn law_cancel_spares_finished_runs<A>(
    s0: AgentState<A>,
    s1: AgentState<A>,
    s2: AgentState<A>,
    s3: AgentState<A>,
    s4: AgentState<A>,
    first: u64,
    second: u64,
)
    requires
        state_wf(s0),
        run_started(s0, s1, first),
        run_finished(s1, s2),
        run_started(s2, s3, second),
        run_cancelled(s3, s4),
    ensures
        first != second,
        !s4.cancelled@.contains(first),
        s4.cancelled@.contains(second),
        s4.cancelled@ == s0.cancelled@.push(second),
{
    assert(s4.cancelled@[s4.cancelled@.len() - 1] == second);
    if s4.cancelled@.contains(first) {
        let i = choose|i: int| 0 <= i < s4.cancelled@.len() && s4.cancelled@[i] == first;
        if i < s0.cancelled@.len() {
            assert(s0.cancelled@[i] < s0.runs_started);
        }
    }
}

} // verus!
