//! The event loop as a state machine: each signal is answered with the next
//! state and with what the caller has to do.
//!
//! The caller owns the file-system subscription and the deployment. It hands
//! every signal to `EventLoop::handle`, carries out the action it gets back,
//! and reports the end of a deployment with `EventLoop::deploy_finished`.

use crate::debounce::DebounceState;
use crate::debounce::Debouncer;
use crate::filter::relevant;
use crate::filter::ExclusionFilter;
use crate::pattern::PatternSpec;
use vstd::prelude::*;

verus! {

/// Where the loop stands.
#[derive(Clone, Copy, Debug, PartialEq, Eq, Structural)]
pub enum LoopState {
    /// Waiting for the next signal.
    Watching,
    /// A batch was let through and its deployment has not been reported yet.
    Draining,
    /// A termination signal was seen: no batch is looked at any more.
    Terminated,
}

/// What the caller has to do after a signal.
#[derive(Clone, Copy, Debug, PartialEq, Eq, Structural)]
pub enum LoopAction {
    /// Stop the loop.
    Quit,
    /// Nothing: the batch was not relevant, or the loop has terminated.
    Discard,
    /// Nothing but a note that the batch came too soon after the last
    /// deployment and was dropped.
    Debounced,
    /// Announce the deployment, run it, and report its end with
    /// `EventLoop::deploy_finished`.
    Deploy,
    /// Log the watcher's error and go on.
    LogError,
    /// Hand the batch in again once the running deployment has been
    /// reported: it has not been looked at.
    Deferred,
}

/// One input of the loop.
#[derive(Debug)]
pub enum LoopSignal {
    /// The paths that one file-system event reported as changed.
    FilesChanged(Vec<String>),
    /// A request to terminate, with its reason.
    Terminate(String),
    /// A failure of the file-system subscription that the loop survives.
    RuntimeError(String),
}

/// What a signal stands for.
pub enum SignalSpec {
    FilesChanged(Seq<Seq<char>>),
    Terminate(Seq<char>),
    RuntimeError(Seq<char>),
}

impl View for LoopSignal {
    type V = SignalSpec;

    open spec fn view(&self) -> SignalSpec {
        match self {
            LoopSignal::FilesChanged(batch) => SignalSpec::FilesChanged(batch.deep_view()),
            LoopSignal::Terminate(reason) => SignalSpec::Terminate(reason@),
            LoopSignal::RuntimeError(error) => SignalSpec::RuntimeError(error@),
        }
    }
}

impl LoopSignal {
    /// The signal for one event of the subscription: a termination request
    /// on it comes first, whatever paths the event also reports.
    pub fn from_event(termination: Option<String>, changed: Vec<String>) -> (signal: LoopSignal)
        ensures
            termination matches Some(reason) ==> signal == LoopSignal::Terminate(reason),
            termination is None ==> signal == LoopSignal::FilesChanged(changed),
    {
        match termination {
            Some(reason) => LoopSignal::Terminate(reason),
            None => LoopSignal::FilesChanged(changed),
        }
    }
}

/// A deployment that failed, as the deployment routine described it.
#[derive(Debug)]
pub struct DeployError {
    pub message: String,
}

/// What the loop is made of: the watched root, the state, the rules of its
/// filter and the state of its debouncer.
pub struct LoopSpec {
    pub root: Seq<char>,
    pub state: LoopState,
    pub rules: Seq<PatternSpec>,
    pub debounce: DebounceState,
}

impl LoopSpec {
    /// The loop in another state, all else the same.
    pub open spec fn in_state(self, state: LoopState) -> LoopSpec {
        LoopSpec { state, ..self }
    }

    /// The answer to a batch of changed paths at `now`.
    pub open spec fn on_batch(self, batch: Seq<Seq<char>>, now: u64) -> (LoopSpec, LoopAction) {
        match self.state {
            LoopState::Terminated => (self, LoopAction::Discard),
            LoopState::Draining => (self, LoopAction::Deferred),
            LoopState::Watching => if !relevant(self.rules, batch) {
                (self, LoopAction::Discard)
            } else if !self.debounce.admits(now) {
                (self, LoopAction::Debounced)
            } else {
                (
                    LoopSpec {
                        state: LoopState::Draining,
                        debounce: self.debounce.triggered(now),
                        ..self
                    },
                    LoopAction::Deploy,
                )
            },
        }
    }

    /// The answer to a signal at `now`: the next loop and the action.
    pub open spec fn step(self, signal: SignalSpec, now: u64) -> (LoopSpec, LoopAction) {
        match signal {
            SignalSpec::Terminate(_) => (self.in_state(LoopState::Terminated), LoopAction::Quit),
            SignalSpec::RuntimeError(_) => (self, LoopAction::LogError),
            SignalSpec::FilesChanged(batch) => self.on_batch(batch, now),
        }
    }

    /// The loop after a deployment has been reported, however it ended.
    pub open spec fn finished(self) -> LoopSpec {
        if self.state == LoopState::Draining {
            self.in_state(LoopState::Watching)
        } else {
            self
        }
    }
}

/// One thing that happens to the loop: a signal at some time, or the report
/// that the deployment in progress has ended.
pub enum LoopInput {
    Signal { signal: SignalSpec, now: u64 },
    DeployFinished,
}

impl LoopSpec {
    /// The loop after one input, and the action if the input was a signal.
    pub open spec fn feed(self, input: LoopInput) -> (LoopSpec, Option<LoopAction>) {
        match input {
            LoopInput::Signal { signal, now } => {
                let (next, action) = self.step(signal, now);
                (next, Some(action))
            },
            LoopInput::DeployFinished => (self.finished(), None),
        }
    }

    /// The loop after a whole history of inputs.
    pub open spec fn run(self, inputs: Seq<LoopInput>) -> LoopSpec
        decreases inputs.len(),
    {
        if inputs.len() == 0 {
            self
        } else {
            self.run(inputs.drop_last()).feed(inputs.last()).0
        }
    }

    /// Whether input `k` of the history is a signal, at time `now`, that is
    /// answered with a deployment.
    pub open spec fn deploys_at(self, inputs: Seq<LoopInput>, k: int, now: u64) -> bool {
        &&& 0 <= k < inputs.len()
        &&& inputs[k] matches LoopInput::Signal { now: at, .. }
        &&& at == now
        &&& self.run(inputs.take(k)).feed(inputs[k]).1 == Some(LoopAction::Deploy)
    }

    /// Whether input `k` of the history is a termination signal.
    pub open spec fn terminates_at(self, inputs: Seq<LoopInput>, k: int) -> bool {
        &&& 0 <= k < inputs.len()
        &&& inputs[k] matches LoopInput::Signal { signal: SignalSpec::Terminate(_), .. }
    }
}

/// The loop: the watched root, the filter, the debouncer and the state.
#[derive(Debug)]
pub struct EventLoop {
    root: String,
    state: LoopState,
    filter: ExclusionFilter,
    debouncer: Debouncer,
}

impl View for EventLoop {
    type V = LoopSpec;

    closed spec fn view(&self) -> LoopSpec {
        LoopSpec {
            root: self.root@,
            state: self.state,
            rules: self.filter@,
            debounce: self.debouncer@,
        }
    }
}

impl EventLoop {
    /// A loop that watches `root` through `filter` and `debouncer`.
    pub fn new(root: String, filter: ExclusionFilter, debouncer: Debouncer) -> (lp: EventLoop)
        ensures
            lp@ == (LoopSpec {
                root: root@,
                state: LoopState::Watching,
                rules: filter@,
                debounce: debouncer@,
            }),
    {
        EventLoop { root, state: LoopState::Watching, filter, debouncer }
    }

    /// The directory whose subtree is watched.
    pub fn watch_root(&self) -> (root: &String)
        ensures
            root@ == self@.root,
    {
        &self.root
    }

    /// Where the loop stands.
    pub fn state(&self) -> (state: LoopState)
        ensures
            state == self@.state,
    {
        self.state
    }

    /// The state of the debouncer.
    pub fn debounce_state(&self) -> (state: DebounceState)
        ensures
            state == self@.debounce,
    {
        self.debouncer.state()
    }

    /// Takes one signal at time `now` and says what to do about it.
    pub fn handle(&mut self, signal: LoopSignal, now: u64) -> (action: LoopAction)
        ensures
            (final(self)@, action) == old(self)@.step(signal@, now),
    {
        match signal {
            LoopSignal::Terminate(_) => {
                self.state = LoopState::Terminated;
                LoopAction::Quit
            },
            LoopSignal::RuntimeError(_) => LoopAction::LogError,
            LoopSignal::FilesChanged(batch) => {
                match self.state {
                    LoopState::Terminated => LoopAction::Discard,
                    LoopState::Draining => LoopAction::Deferred,
                    LoopState::Watching => {
                        if !self.filter.is_relevant(&batch) {
                            LoopAction::Discard
                        } else if !self.debouncer.try_admit(now) {
                            LoopAction::Debounced
                        } else {
                            self.state = LoopState::Draining;
                            LoopAction::Deploy
                        }
                    },
                }
            },
        }
    }

    /// Takes the end of the deployment that `handle` asked for. The loop goes
    /// back to watching unless it has terminated; a failure is handed back
    /// for display and changes nothing else.
    pub fn deploy_finished(&mut self, outcome: Result<(), DeployError>) -> (failure: Option<
        DeployError,
    >)
        ensures
            final(self)@ == old(self)@.finished(),
            failure == match outcome {
                Ok(_) => None::<DeployError>,
                Err(error) => Some(error),
            },
    {
        if self.state == LoopState::Draining {
            self.state = LoopState::Watching;
        }
        match outcome {
            Ok(_) => None,
            Err(error) => Some(error),
        }
    }
}

/// In `Watching`, a batch is deployed exactly when it is relevant and the
/// debouncer lets it through; the debouncer then holds `now` before the
/// deployment starts. Any other batch leaves the loop as it was.
pub proof fn law_deploy_iff_relevant_and_admitted(lp: LoopSpec, batch: Seq<Seq<char>>, now: u64)
    requires
        lp.state == LoopState::Watching,
    ensures
        ({
            let (next, action) = lp.step(SignalSpec::FilesChanged(batch), now);
            &&& (action == LoopAction::Deploy) == (relevant(lp.rules, batch) && lp.debounce.admits(
                now,
            ))
            &&& action == LoopAction::Deploy ==> next == (LoopSpec {
                state: LoopState::Draining,
                debounce: lp.debounce.triggered(now),
                ..lp
            })
            &&& action != LoopAction::Deploy ==> next == lp
            &&& !relevant(lp.rules, batch) ==> action == LoopAction::Discard
        }),
{
}

/// A termination signal ends the loop from any state. No signal after it
/// changes the loop or starts a deployment, and a deployment that was
/// running may still report its end.
pub proof fn law_termination_is_final(
    lp: LoopSpec,
    reason: Seq<char>,
    now: u64,
    later: SignalSpec,
    then: u64,
)
    ensures
        ({
            let (ended, action) = lp.step(SignalSpec::Terminate(reason), now);
            &&& action == LoopAction::Quit
            &&& ended == lp.in_state(LoopState::Terminated)
            &&& ended.step(later, then).0 == ended
            &&& ended.step(later, then).1 != LoopAction::Deploy
            &&& ended.finished() == ended
        }),
{
}

/// A batch that is waiting when termination is seen first is never
/// deployed, relevant or not.
pub proof fn law_pending_batch_is_dropped_on_termination(
    lp: LoopSpec,
    reason: Seq<char>,
    batch: Seq<Seq<char>>,
    now: u64,
)
    ensures
        ({
            let ended = lp.step(SignalSpec::Terminate(reason), now).0;
            ended.step(SignalSpec::FilesChanged(batch), now) == (ended, LoopAction::Discard)
        }),
{
}

/// The end of a deployment, failed or not, takes the loop from `Draining`
/// back to `Watching` and changes nothing else; the next batch that is
/// relevant and admitted is deployed.
pub proof fn law_failed_deploy_keeps_watching(lp: LoopSpec, batch: Seq<Seq<char>>, now: u64)
    requires
        lp.state == LoopState::Draining,
    ensures
        lp.finished() == lp.in_state(LoopState::Watching),
        relevant(lp.rules, batch) && lp.debounce.admits(now) ==> lp.finished().step(
            SignalSpec::FilesChanged(batch),
            now,
        ).1 == LoopAction::Deploy,
{
}

/// The watched root, the rules and the window are fixed for the life of the
/// loop: no history of inputs changes them.
pub proof fn law_configuration_is_fixed(lp: LoopSpec, inputs: Seq<LoopInput>)
    ensures
        lp.run(inputs).root == lp.root,
        lp.run(inputs).rules == lp.rules,
        lp.run(inputs).debounce.window == lp.debounce.window,
    decreases inputs.len(),
{
    if inputs.len() > 0 {
        law_configuration_is_fixed(lp, inputs.drop_last());
    }
}

/// Once a deployment was started at `since`, the debouncer remembers a
/// trigger that is no older.
proof fn lemma_trigger_is_remembered(lp: LoopSpec, inputs: Seq<LoopInput>, i: int, since: u64, k: int)
    requires
        lp.debounce.window > 0,
        lp.deploys_at(inputs, i, since),
        i < k <= inputs.len(),
    ensures
        lp.run(inputs.take(k)).debounce.last_trigger matches Some(last) && last >= since,
    decreases k - i,
{
    assert(inputs.take(k).drop_last() =~= inputs.take(k - 1));
    law_configuration_is_fixed(lp, inputs.take(k - 1));
    if k - 1 > i {
        lemma_trigger_is_remembered(lp, inputs, i, since, k - 1);
    }
}

/// Deployments keep the window: in any history of signals and reports, two
/// deployments are started at least one window apart, whatever the clock
/// did in between.
pub proof fn law_deployments_keep_the_window(
    lp: LoopSpec,
    inputs: Seq<LoopInput>,
    i: int,
    first: u64,
    j: int,
    second: u64,
)
    requires
        lp.debounce.window > 0,
        i < j,
        lp.deploys_at(inputs, i, first),
        lp.deploys_at(inputs, j, second),
    ensures
        second - first >= lp.debounce.window,
{
    lemma_trigger_is_remembered(lp, inputs, i, first, j);
    law_configuration_is_fixed(lp, inputs.take(j));
}

/// After a termination signal the loop stays terminated.
proof fn lemma_terminated_for_good(lp: LoopSpec, inputs: Seq<LoopInput>, i: int, k: int)
    requires
        lp.terminates_at(inputs, i),
        i < k <= inputs.len(),
    ensures
        lp.run(inputs.take(k)).state == LoopState::Terminated,
    decreases k - i,
{
    assert(inputs.take(k).drop_last() =~= inputs.take(k - 1));
    if k - 1 > i {
        lemma_terminated_for_good(lp, inputs, i, k - 1);
    }
}

/// In any history, nothing is deployed after a termination signal.
pub proof fn law_no_deployment_after_termination(
    lp: LoopSpec,
    inputs: Seq<LoopInput>,
    i: int,
    j: int,
    now: u64,
)
    requires
        lp.terminates_at(inputs, i),
        i < j,
    ensures
        !lp.deploys_at(inputs, j, now),
{
    if j < inputs.len() {
        lemma_terminated_for_good(lp, inputs, i, j);
    }
}

/// In any history, a deployment is started only while none is in progress:
/// between two deployments the first one has been reported.
pub proof fn law_deployments_do_not_overlap(lp: LoopSpec, inputs: Seq<LoopInput>, k: int, now: u64)
    requires
        lp.deploys_at(inputs, k, now),
    ensures
        lp.run(inputs.take(k)).state == LoopState::Watching,
        lp.run(inputs.take(k + 1)).state == LoopState::Draining,
{
    assert(inputs.take(k + 1).drop_last() =~= inputs.take(k));
}

/// A watcher error is logged and changes nothing.
pub proof fn law_runtime_error_changes_nothing(lp: LoopSpec, error: Seq<char>, now: u64)
    ensures
        lp.step(SignalSpec::RuntimeError(error), now) == (lp, LoopAction::LogError),
{
}

} // verus!
