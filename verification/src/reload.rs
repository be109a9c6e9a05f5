//! The protocol between the frame loop and the background worker that
//! recompiles the shaders: a request queue with room for one token, and the
//! worker's round of waiting, compiling and handing over.

use vstd::prelude::*;

verus! {

/// The queue of rebuild requests. A request is a signal, not a piece of work:
/// the queue has room for one, and a request that finds it taken is dropped.
#[derive(Clone, Copy, Debug, PartialEq, Eq, Structural)]
pub struct RequestSlot {
    pending: bool,
}

impl RequestSlot {
    /// Whether a request waits in the queue.
    pub closed spec fn is_pending(self) -> bool {
        self.pending
    }

    /// The empty queue.
    pub closed spec fn empty() -> RequestSlot {
        RequestSlot { pending: false }
    }

    /// The queue after a request was offered to it: one request waits.
    pub closed spec fn after_offer(self) -> RequestSlot {
        RequestSlot { pending: true }
    }

    /// The queue after the worker looked into it: no request waits.
    pub closed spec fn after_take(self) -> RequestSlot {
        RequestSlot { pending: false }
    }

    /// The queue after `count` requests were offered to it in a row.
    pub open spec fn after_offers(self, count: nat) -> RequestSlot
        decreases count,
    {
        if count == 0 {
            self
        } else {
            self.after_offer().after_offers((count - 1) as nat)
        }
    }

    /// An empty queue.
    pub fn new() -> (slot: RequestSlot)
        ensures
            slot == RequestSlot::empty(),
            !slot.is_pending(),
    {
        RequestSlot { pending: false }
    }

    /// Whether a request waits in the queue.
    pub fn pending(&self) -> (pending: bool)
        ensures
            pending == self.is_pending(),
    {
        self.pending
    }

    /// Offers a request. It is accepted where the queue was empty, and dropped
    /// where one was waiting already; either way one request waits afterwards.
    pub fn offer(&mut self) -> (accepted: bool)
        ensures
            accepted == !old(self).is_pending(),
            *final(self) == old(self).after_offer(),
            final(self).is_pending(),
    {
        let accepted = !self.pending;
        self.pending = true;
        accepted
    }

    /// Takes the waiting request out, if there is one, and tells whether
    /// there was.
    pub fn take(&mut self) -> (taken: bool)
        ensures
            taken == old(self).is_pending(),
            *final(self) == old(self).after_take(),
            !final(self).is_pending(),
    {
        let taken = self.pending;
        self.pending = false;
        taken
    }
}

/// Where the worker stands in its round.
#[derive(Clone, Copy, Debug, PartialEq, Eq, Structural)]
pub enum WorkerState {
    /// Blocked until a request comes.
    Waiting,
    /// The compiler runs.
    Compiling,
    /// Blocked until the frame loop takes the compiled result.
    Publishing,
    /// The worker has ended: one of its channels was closed.
    Stopped,
}

/// What happened to the worker.
#[derive(Clone, Copy, Debug, PartialEq, Eq, Structural)]
pub enum WorkerEvent {
    /// A request came.
    RequestReceived,
    /// The request channel was closed while the worker waited.
    RequestsClosed,
    /// The compiler returned a program.
    CompileSucceeded,
    /// The compiler returned an error.
    CompileFailed,
    /// The frame loop took the result.
    ResultTaken,
    /// The result channel was closed while the worker held a result.
    ResultsClosed,
}

/// What the worker is to do next.
#[derive(Clone, Copy, Debug, PartialEq, Eq, Structural)]
pub enum WorkerAction {
    /// Block until a request comes.
    AwaitRequest,
    /// Run the compiler.
    Compile,
    /// Hand the compiled program to the frame loop, blocking until it is
    /// taken.
    Publish,
    /// Report the compiler's error, publish nothing, and block until a
    /// request comes.
    ReportFailure,
    /// End.
    Stop,
}

/// The event that `state` waits for, as one of a pair.
pub open spec fn awaits(state: WorkerState, event: WorkerEvent) -> bool {
    match state {
        WorkerState::Waiting => event == WorkerEvent::RequestReceived || event
            == WorkerEvent::RequestsClosed,
        WorkerState::Compiling => event == WorkerEvent::CompileSucceeded || event
            == WorkerEvent::CompileFailed,
        WorkerState::Publishing => event == WorkerEvent::ResultTaken || event
            == WorkerEvent::ResultsClosed,
        WorkerState::Stopped => false,
    }
}

/// The worker's round: a request starts one compilation; a program is handed
/// over, an error is reported and nothing is handed over; after either the
/// worker waits again. A closed channel ends it. An event that the state does
/// not wait for has no successor.
pub open spec fn worker_next(state: WorkerState, event: WorkerEvent) -> Option<
    (WorkerState, WorkerAction),
> {
    match (state, event) {
        (WorkerState::Waiting, WorkerEvent::RequestReceived) => Some(
            (WorkerState::Compiling, WorkerAction::Compile),
        ),
        (WorkerState::Waiting, WorkerEvent::RequestsClosed) => Some(
            (WorkerState::Stopped, WorkerAction::Stop),
        ),
        (WorkerState::Compiling, WorkerEvent::CompileSucceeded) => Some(
            (WorkerState::Publishing, WorkerAction::Publish),
        ),
        (WorkerState::Compiling, WorkerEvent::CompileFailed) => Some(
            (WorkerState::Waiting, WorkerAction::ReportFailure),
        ),
        (WorkerState::Publishing, WorkerEvent::ResultTaken) => Some(
            (WorkerState::Waiting, WorkerAction::AwaitRequest),
        ),
        (WorkerState::Publishing, WorkerEvent::ResultsClosed) => Some(
            (WorkerState::Stopped, WorkerAction::Stop),
        ),
        _ => None,
    }
}

/// The state in which the worker starts, and what it does first.
pub fn worker_start() -> (start: (WorkerState, WorkerAction))
    ensures
        start == (WorkerState::Waiting, WorkerAction::AwaitRequest),
{
    (WorkerState::Waiting, WorkerAction::AwaitRequest)
}

/// One step of the worker: from where it stands and what happened to where it
/// stands next and what it is to do. `None` where `event` cannot happen in
/// `state`.
pub fn worker_step(state: WorkerState, event: WorkerEvent) -> (next: Option<
    (WorkerState, WorkerAction),
>)
    ensures
        next == worker_next(state, event),
{
    match state {
        WorkerState::Waiting => match event {
            WorkerEvent::RequestReceived => Some((WorkerState::Compiling, WorkerAction::Compile)),
            WorkerEvent::RequestsClosed => Some((WorkerState::Stopped, WorkerAction::Stop)),
            _ => None,
        },
        WorkerState::Compiling => match event {
            WorkerEvent::CompileSucceeded => Some((WorkerState::Publishing, WorkerAction::Publish)),
            WorkerEvent::CompileFailed => Some((WorkerState::Waiting, WorkerAction::ReportFailure)),
            _ => None,
        },
        WorkerState::Publishing => match event {
            WorkerEvent::ResultTaken => Some((WorkerState::Waiting, WorkerAction::AwaitRequest)),
            WorkerEvent::ResultsClosed => Some((WorkerState::Stopped, WorkerAction::Stop)),
            _ => None,
        },
        WorkerState::Stopped => None,
    }
}

/// However many requests are offered in a row, one or a hundred, one request
/// waits afterwards: the worker finds it once, and then finds the queue empty.
/// So triggers that come while a compilation runs lead to one more
/// compilation, not to one each.
pub proof fn lemma_requests_coalesce(slot: RequestSlot, count: nat)
    requires
        count >= 1,
    ensures
        slot.after_offers(count) == slot.after_offer(),
        slot.after_offers(count).is_pending(),
        !slot.after_offers(count).after_take().is_pending(),
    decreases count,
{
    if count > 1 {
        lemma_requests_coalesce(slot.after_offer(), (count - 1) as nat);
    } else {
        assert(slot.after_offer().after_offers(0) == slot.after_offer());
    }
}

/// The queue, the worker and the frame loop seen as one system, with counts
/// of what has happened so far.
pub struct ReloadModel {
    /// The request queue.
    pub slot: RequestSlot,
    /// Where the worker stands.
    pub worker: WorkerState,
    /// The requests that the frame loop has made, dropped ones included.
    pub requests: nat,
    /// The compilations that were started.
    pub compilations: nat,
    /// The compilations that have ended, with a program or with an error.
    pub finished: nat,
    /// The programs that the frame loop has taken for a rebuild.
    pub adopted: nat,
}

/// What can happen to the system, one thing at a time and in any order.
pub enum ReloadStep {
    /// The frame loop asks for a rebuild.
    Trigger,
    /// The worker, if it waits, looks into the queue.
    Wake,
    /// The compilation that runs, if one does, ends: with a program or with
    /// an error.
    Compiled(bool),
    /// The frame loop looks for a result, and takes the one that the worker
    /// holds out, if it holds one out.
    Poll,
}

impl ReloadModel {
    /// The system at the start: an empty queue, a waiting worker, nothing
    /// counted.
    pub open spec fn start() -> ReloadModel {
        ReloadModel {
            slot: RequestSlot::empty(),
            worker: WorkerState::Waiting,
            requests: 0,
            compilations: 0,
            finished: 0,
            adopted: 0,
        }
    }

    /// The system after the frame loop asked for a rebuild. The loop does not
    /// wait: the request is in the queue afterwards, whether it was taken or
    /// dropped.
    pub open spec fn trigger(self) -> ReloadModel {
        ReloadModel { slot: self.slot.after_offer(), requests: self.requests + 1, ..self }
    }

    /// The system after `count` requests in a row.
    pub open spec fn triggers(self, count: nat) -> ReloadModel {
        ReloadModel {
            slot: self.slot.after_offers(count),
            requests: self.requests + count,
            ..self
        }
    }

    /// The system after a waiting worker looked into the queue: where a
    /// request waited it is taken out and a compilation starts; else nothing
    /// changes.
    pub open spec fn wake(self) -> ReloadModel {
        if self.slot.is_pending() {
            match worker_next(self.worker, WorkerEvent::RequestReceived) {
                Some((worker, _)) => ReloadModel {
                    slot: self.slot.after_take(),
                    worker,
                    compilations: self.compilations + 1,
                    ..self
                },
                None => self,
            }
        } else {
            self
        }
    }

    /// The system after the compilation that runs has ended. Where none runs
    /// nothing changes.
    pub open spec fn compiled(self, success: bool) -> ReloadModel {
        let event = if success {
            WorkerEvent::CompileSucceeded
        } else {
            WorkerEvent::CompileFailed
        };
        match worker_next(self.worker, event) {
            Some((worker, _)) => ReloadModel { worker, finished: self.finished + 1, ..self },
            None => self,
        }
    }

    /// The system after the frame loop looked for a result: where the worker
    /// holds one out it is taken; else nothing changes.
    pub open spec fn poll(self) -> ReloadModel {
        match worker_next(self.worker, WorkerEvent::ResultTaken) {
            Some((worker, _)) => ReloadModel { worker, adopted: self.adopted + 1, ..self },
            None => self,
        }
    }

    /// The system after the compilation that runs has ended and the frame
    /// loop has looked for its result.
    pub open spec fn finish(self, success: bool) -> ReloadModel {
        self.compiled(success).poll()
    }

    /// The system after one step.
    pub open spec fn step(self, step: ReloadStep) -> ReloadModel {
        match step {
            ReloadStep::Trigger => self.trigger(),
            ReloadStep::Wake => self.wake(),
            ReloadStep::Compiled(success) => self.compiled(success),
            ReloadStep::Poll => self.poll(),
        }
    }

    /// The system after `steps`, the first of them first.
    pub open spec fn run(self, steps: Seq<ReloadStep>) -> ReloadModel
        decreases steps.len(),
    {
        if steps.len() == 0 {
            self
        } else {
            self.run(steps.drop_last()).step(steps.last())
        }
    }

    /// 1 where a request waits in the queue, else 0.
    pub open spec fn waiting_requests(self) -> nat {
        if self.slot.is_pending() {
            1
        } else {
            0
        }
    }

    /// 1 where a compilation runs, else 0.
    pub open spec fn running(self) -> nat {
        if self.worker == WorkerState::Compiling {
            1
        } else {
            0
        }
    }

    /// 1 where the worker holds a program out to the frame loop, else 0.
    pub open spec fn held_out(self) -> nat {
        if self.worker == WorkerState::Publishing {
            1
        } else {
            0
        }
    }

    /// What the counts of a system obey at every moment: every compilation
    /// that was started has ended but for the one that runs; every program
    /// that was taken, and the one held out, stems from a compilation that
    /// has ended; and every compilation, and the request that waits, stems
    /// from a request that the frame loop made.
    pub open spec fn consistent(self) -> bool {
        &&& self.worker != WorkerState::Stopped
        &&& self.compilations == self.finished + self.running()
        &&& self.adopted + self.held_out() <= self.finished
        &&& self.compilations + self.waiting_requests() <= self.requests
    }
}

/// One step, whichever it is, keeps the counts of the system in order.
pub proof fn lemma_step_keeps_consistent(system: ReloadModel, step: ReloadStep)
    requires
        system.consistent(),
    ensures
        system.step(step).consistent(),
{
}

/// Whatever happens and in whatever order, requests, looks into the queue,
/// ends of compilations and polls, at every moment at most one request waits
/// and at most one compilation runs, and no more programs were taken for a
/// rebuild than requests were made.
pub proof fn lemma_run_keeps_consistent(steps: Seq<ReloadStep>)
    ensures
        ({
            let system = ReloadModel::start().run(steps);
            &&& system.consistent()
            &&& system.waiting_requests() <= 1
            &&& system.compilations - system.finished <= 1
            &&& system.adopted <= system.finished <= system.compilations <= system.requests
        }),
    decreases steps.len(),
{
    if steps.len() > 0 {
        lemma_run_keeps_consistent(steps.drop_last());
        lemma_step_keeps_consistent(ReloadModel::start().run(steps.drop_last()), steps.last());
    }
}

/// A request that finds the queue taken is dropped: nothing in the system
/// changes but the count of requests, and no compilation is added for it.
pub proof fn lemma_full_queue_drops_request(system: ReloadModel)
    requires
        system.slot.is_pending(),
    ensures
        system.trigger() == (ReloadModel { requests: system.requests + 1, ..system }),
        system.trigger().wake().compilations == system.wake().compilations,
{
}

/// Requests that come while a compilation runs are folded into one. Let the
/// worker compile with an empty queue, and let one request or more come in.
/// When the compilation has ended, however it ended, the worker finds a
/// request and compiles once more; when that has ended too it finds nothing
/// and waits. One compilation was added, not one for each request.
pub proof fn lemma_one_more_compilation(
    system: ReloadModel,
    requests: nat,
    first_succeeds: bool,
    second_succeeds: bool,
)
    requires
        system.worker == WorkerState::Compiling,
        !system.slot.is_pending(),
        requests >= 1,
    ensures
        ({
            let again = system.triggers(requests).finish(first_succeeds).wake();
            let rest = again.finish(second_succeeds).wake();
            &&& again.worker == WorkerState::Compiling
            &&& again.compilations == system.compilations + 1
            &&& rest.worker == WorkerState::Waiting
            &&& rest.compilations == system.compilations + 1
            &&& !rest.slot.is_pending()
            &&& rest.wake() == rest
        }),
{
    lemma_requests_coalesce(system.slot, requests);
}

/// Without a request nothing is compiled: a waiting worker that finds the
/// queue empty goes on waiting.
pub proof fn lemma_no_request_no_compilation(system: ReloadModel)
    requires
        system.worker == WorkerState::Waiting,
        !system.slot.is_pending(),
    ensures
        system.wake() == system,
{
}

/// A step is taken exactly where the state waits for the event.
pub proof fn lemma_step_iff_awaited(state: WorkerState, event: WorkerEvent)
    ensures
        worker_next(state, event) is Some <==> awaits(state, event),
{
}

/// The compiler runs only on a request: a step whose action is `Compile`
/// starts from `Waiting` with `RequestReceived`. So at most one compilation
/// is under way, and none starts unasked.
pub proof fn lemma_compile_only_on_request(state: WorkerState, event: WorkerEvent)
    requires
        worker_next(state, event) matches Some(step) && step.1 == WorkerAction::Compile,
    ensures
        state == WorkerState::Waiting,
        event == WorkerEvent::RequestReceived,
        worker_next(state, event) == Some((WorkerState::Compiling, WorkerAction::Compile)),
{
}

/// A failed compilation does not end the worker and hands nothing over: the
/// worker waits for the next request. A result is handed over only after a
/// compilation that succeeded.
pub proof fn lemma_failure_is_not_published(state: WorkerState, event: WorkerEvent)
    ensures
        worker_next(WorkerState::Compiling, WorkerEvent::CompileFailed) == Some(
            (WorkerState::Waiting, WorkerAction::ReportFailure),
        ),
        worker_next(state, event) matches Some(step) && step.1 == WorkerAction::Publish ==> state
            == WorkerState::Compiling && event == WorkerEvent::CompileSucceeded,
{
}

/// The worker ends only when a channel is closed, and once ended it takes no
/// further step.
pub proof fn lemma_stop_only_when_closed(state: WorkerState, event: WorkerEvent)
    ensures
        worker_next(state, event) matches Some(step) && step.0 == WorkerState::Stopped ==> event
            == WorkerEvent::RequestsClosed || event == WorkerEvent::ResultsClosed,
        worker_next(WorkerState::Stopped, event) is None,
{
}

} // verus!
