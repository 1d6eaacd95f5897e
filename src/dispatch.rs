use vstd::prelude::*;

verus! {

/// Sequence id of the warm-up request; no batch id can equal it.
pub const WARM_UP_ID: usize = usize::MAX;

/// Context added to the first failure of a batch request.
pub const BATCH_ERROR_CONTEXT: &'static str = "error sending request";

/// Where a run of the dispatcher stands.
#[derive(PartialEq, Eq, Structural, Debug, Clone, Copy)]
pub enum Phase {
    /// The warm-up request has not been resolved yet.
    WarmUp,
    /// Batch requests are being admitted and resolved.
    Batch,
    /// Every batch request resolved successfully.
    Done,
    /// The warm-up request failed; no batch request was issued.
    WarmUpFailed,
    /// A batch request failed; the rest are no longer awaited.
    BatchFailed,
}

/// What the driver of the connection has to do next.
#[derive(PartialEq, Eq, Structural, Debug, Clone, Copy)]
pub enum Action {
    /// Send the warm-up request and wait for its outcome.
    SendWarmUp { id: usize },
    /// Start the batch request with this sequence id.
    Admit { id: usize },
    /// Wait until one of the requests in flight resolves.
    AwaitOne,
    /// The run succeeded: finish the progress display.
    Finish,
    /// The run failed at the warm-up request.
    FailWarmUp,
    /// The run failed at a batch request.
    FailBatch,
}

/// Abstract state of a dispatcher.
pub struct DispatcherView {
    pub concurrency: nat,
    pub iterations: nat,
    pub phase: Phase,
    /// Warm-up requests resolved so far.
    pub warm_ups: nat,
    /// Batch requests started so far; they carry the ids `0..admitted`.
    pub admitted: nat,
    /// Batch requests resolved so far; this is the progress counter.
    pub resolved: nat,
}

impl DispatcherView {
    /// Batch requests started and not resolved yet.
    pub open spec fn in_flight(self) -> int {
        self.admitted - self.resolved
    }

    pub open spec fn wf(self) -> bool {
        &&& 1 <= self.concurrency <= usize::MAX
        &&& self.iterations <= usize::MAX
        &&& self.resolved <= self.admitted <= self.iterations
        &&& self.in_flight() <= self.concurrency
        &&& self.warm_ups <= 1
        &&& self.phase == Phase::WarmUp ==> self.warm_ups == 0 && self.admitted == 0
        &&& self.phase != Phase::WarmUp ==> self.warm_ups == 1
        &&& self.phase == Phase::WarmUpFailed ==> self.admitted == 0
        &&& self.phase == Phase::Batch ==> self.resolved < self.iterations
        &&& self.phase == Phase::Done ==> self.resolved == self.iterations
        &&& self.phase == Phase::BatchFailed ==> self.resolved >= 1
    }

    /// The action that the state calls for.
    pub open spec fn next(self) -> Action {
        match self.phase {
            Phase::WarmUp => Action::SendWarmUp { id: WARM_UP_ID },
            Phase::Batch => if self.admitted < self.iterations && self.in_flight()
                < self.concurrency {
                Action::Admit { id: self.admitted as usize }
            } else {
                Action::AwaitOne
            },
            Phase::Done => Action::Finish,
            Phase::WarmUpFailed => Action::FailWarmUp,
            Phase::BatchFailed => Action::FailBatch,
        }
    }
}

/// Decides, for one warm-up request and `iterations` batch requests of which at
/// most `concurrency` are unresolved at a time, what to send and when to stop.
pub struct Dispatcher {
    concurrency: usize,
    iterations: usize,
    phase: Phase,
    warm_ups: usize,
    admitted: usize,
    resolved: usize,
}

impl View for Dispatcher {
    type V = DispatcherView;

    closed spec fn view(&self) -> DispatcherView {
        DispatcherView {
            concurrency: self.concurrency as nat,
            iterations: self.iterations as nat,
            phase: self.phase,
            warm_ups: self.warm_ups as nat,
            admitted: self.admitted as nat,
            resolved: self.resolved as nat,
        }
    }
}

impl Dispatcher {
    /// A dispatcher that has sent nothing yet.
    pub fn new(concurrency: usize, iterations: usize) -> (r: Dispatcher)
        requires
            concurrency >= 1,
        ensures
            r@.wf(),
            r@ == (DispatcherView {
                concurrency: concurrency as nat,
                iterations: iterations as nat,
                phase: Phase::WarmUp,
                warm_ups: 0,
                admitted: 0,
                resolved: 0,
            }),
    {
        Dispatcher { concurrency, iterations, phase: Phase::WarmUp, warm_ups: 0, admitted: 0, resolved: 0 }
    }

    pub fn phase(&self) -> (r: Phase)
        ensures
            r == self@.phase,
    {
        self.phase
    }

    /// The number of batch requests resolved so far.
    pub fn progress(&self) -> (r: usize)
        ensures
            r == self@.resolved,
    {
        self.resolved
    }

    /// The number of batch requests started and not resolved yet.
    pub fn in_flight(&self) -> (r: usize)
        requires
            self@.wf(),
        ensures
            r == self@.in_flight(),
    {
        self.admitted - self.resolved
    }

    pub fn next_action(&self) -> (r: Action)
        requires
            self@.wf(),
        ensures
            r == self@.next(),
    {
        match self.phase {
            Phase::WarmUp => Action::SendWarmUp { id: WARM_UP_ID },
            Phase::Batch => {
                if self.admitted < self.iterations && self.admitted - self.resolved
                    < self.concurrency {
                    Action::Admit { id: self.admitted }
                } else {
                    Action::AwaitOne
                }
            },
            Phase::Done => Action::Finish,
            Phase::WarmUpFailed => Action::FailWarmUp,
            Phase::BatchFailed => Action::FailBatch,
        }
    }

    /// Records the outcome of the warm-up request.
    pub fn record_warm_up(&mut self, ok: bool)
        requires
            old(self)@.wf(),
            old(self)@.phase == Phase::WarmUp,
        ensures
            final(self)@.wf(),
            final(self)@ == (DispatcherView {
                warm_ups: 1,
                phase: if !ok {
                    Phase::WarmUpFailed
                } else if old(self)@.iterations == 0 {
                    Phase::Done
                } else {
                    Phase::Batch
                },
                ..old(self)@
            }),
    {
        self.warm_ups = 1;
        self.phase = if !ok {
            Phase::WarmUpFailed
        } else if self.iterations == 0 {
            Phase::Done
        } else {
            Phase::Batch
        };
    }

    /// Records that the request named by `Action::Admit` was started.
    pub fn record_admit(&mut self)
        requires
            old(self)@.wf(),
            old(self)@.next() is Admit,
        ensures
            final(self)@.wf(),
            final(self)@ == (DispatcherView { admitted: old(self)@.admitted + 1, ..old(self)@ }),
    {
        self.admitted = self.admitted + 1;
    }

    /// Records that one batch request in flight resolved, successfully or not.
    pub fn record_resolved(&mut self, ok: bool)
        requires
            old(self)@.wf(),
            old(self)@.phase == Phase::Batch,
            old(self)@.in_flight() > 0,
        ensures
            final(self)@.wf(),
            final(self)@ == (DispatcherView {
                resolved: old(self)@.resolved + 1,
                phase: if !ok {
                    Phase::BatchFailed
                } else if old(self)@.resolved + 1 == old(self)@.iterations {
                    Phase::Done
                } else {
                    Phase::Batch
                },
                ..old(self)@
            }),
    {
        self.resolved = self.resolved + 1;
        self.phase = if !ok {
            Phase::BatchFailed
        } else if self.resolved == self.iterations {
            Phase::Done
        } else {
            Phase::Batch
        };
    }
}

/// The warm-up request comes first and alone: in any reachable state a batch
/// request is admitted only after exactly one warm-up request has succeeded,
/// every batch id lies in `0..iterations` and so differs from the warm-up id,
/// and after a failed warm-up no batch request is ever issued.
pub proof fn warm_up_comes_first(v: DispatcherView)
    requires
        v.wf(),
    ensures
        v.next() is SendWarmUp ==> v.warm_ups == 0 && v.admitted == 0,
        v.next() is Admit ==> v.warm_ups == 1 && v.phase == Phase::Batch,
        forall|id: usize|
            v.next() == (Action::Admit { id }) ==> id < v.iterations && id != WARM_UP_ID,
        v.admitted > 0 ==> v.warm_ups == 1,
        v.phase == Phase::WarmUpFailed ==> v.admitted == 0 && v.next() == Action::FailWarmUp,
{
}

/// At no point are more batch requests unresolved than the concurrency ceiling,
/// and the dispatcher asks to admit one only while fewer are unresolved.
pub proof fn in_flight_within_ceiling(v: DispatcherView)
    requires
        v.wf(),
    ensures
        0 <= v.in_flight() <= v.concurrency,
        v.next() is Admit ==> v.in_flight() + 1 <= v.concurrency,
        v.next() == Action::AwaitOne ==> v.in_flight() > 0,
{
}

/// The progress counter ends at `iterations` on a successful run; a run that
/// fails at the warm-up reports no progress, and one that fails at a batch
/// request while others are still outstanding reports fewer than `iterations`.
pub proof fn progress_at_end(v: DispatcherView)
    requires
        v.wf(),
    ensures
        v.phase == Phase::Done ==> v.resolved == v.iterations,
        v.phase == Phase::WarmUpFailed ==> v.resolved == 0,
        v.phase == Phase::BatchFailed ==> v.resolved <= v.iterations,
        v.phase == Phase::BatchFailed && (v.in_flight() > 0 || v.admitted < v.iterations)
            ==> v.resolved < v.iterations,
{
}

} // verus!
