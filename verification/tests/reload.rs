use rust_gpu_life::reload::{
    worker_start, worker_step, RequestSlot, WorkerAction, WorkerEvent, WorkerState,
};
use rust_gpu_life::reload::WorkerAction as A;
use rust_gpu_life::reload::WorkerEvent as E;
use rust_gpu_life::reload::WorkerState as S;

/// The worker and the request queue together, driven from one thread: the
/// compiler's answers are taken from `outcomes` in turn, and the frame loop
/// takes every result at once.
struct Bench {
    slot: RequestSlot,
    state: WorkerState,
    compilations: u32,
    published: u32,
    reported: u32,
}

impl Bench {
    fn new() -> Bench {
        let (state, action) = worker_start();
        assert_eq!(action, WorkerAction::AwaitRequest);
        Bench { slot: RequestSlot::new(), state, compilations: 0, published: 0, reported: 0 }
    }

    fn apply(&mut self, event: WorkerEvent) -> WorkerAction {
        let (state, action) = worker_step(self.state, event).unwrap();
        self.state = state;
        match action {
            WorkerAction::Compile => self.compilations += 1,
            WorkerAction::Publish => self.published += 1,
            WorkerAction::ReportFailure => self.reported += 1,
            _ => {}
        }
        action
    }

    /// Lets a waiting worker look into the queue; tells whether it started
    /// to compile.
    fn wake(&mut self) -> bool {
        assert_eq!(self.state, WorkerState::Waiting);
        if self.slot.take() {
            assert_eq!(self.apply(WorkerEvent::RequestReceived), WorkerAction::Compile);
            true
        } else {
            false
        }
    }

    /// Ends the compilation that runs, and hands the result over if there
    /// is one.
    fn finish(&mut self, success: bool) {
        assert_eq!(self.state, WorkerState::Compiling);
        if success {
            assert_eq!(self.apply(WorkerEvent::CompileSucceeded), WorkerAction::Publish);
            assert_eq!(self.apply(WorkerEvent::ResultTaken), WorkerAction::AwaitRequest);
        } else {
            assert_eq!(self.apply(WorkerEvent::CompileFailed), WorkerAction::ReportFailure);
        }
        assert_eq!(self.state, WorkerState::Waiting);
    }
}

#[test]
fn slot_holds_one_request() {
    let mut slot = RequestSlot::new();
    assert!(!slot.pending());
    assert!(slot.offer());
    assert!(slot.pending());
    assert!(!slot.offer());
    assert!(!slot.offer());
    assert!(slot.pending());
    assert!(slot.take());
    assert!(!slot.pending());
    assert!(!slot.take());
    assert!(slot.offer());
}

#[test]
fn two_triggers_during_a_compilation_give_one_more_compilation() {
    let mut bench = Bench::new();
    assert!(bench.slot.offer());
    assert!(bench.wake());
    assert_eq!(bench.compilations, 1);
    // The first compilation runs; two triggers come.
    assert!(bench.slot.offer());
    assert!(!bench.slot.offer());
    bench.finish(true);
    assert!(bench.wake());
    bench.finish(true);
    // Nothing is left to do.
    assert!(!bench.wake());
    assert_eq!(bench.compilations, 2);
    assert_eq!(bench.published, 2);
}

#[test]
fn many_triggers_during_a_compilation_give_one_more_compilation() {
    for triggers in 1..20 {
        let mut bench = Bench::new();
        bench.slot.offer();
        assert!(bench.wake());
        for _ in 0..triggers {
            bench.slot.offer();
        }
        bench.finish(true);
        assert!(bench.wake());
        bench.finish(true);
        assert!(!bench.wake());
        assert_eq!(bench.compilations, 2);
    }
}

#[test]
fn no_trigger_no_compilation() {
    let mut bench = Bench::new();
    assert!(!bench.wake());
    assert!(!bench.wake());
    assert_eq!(bench.compilations, 0);
}

#[test]
fn a_failed_compilation_publishes_nothing_and_the_worker_goes_on() {
    let mut bench = Bench::new();
    bench.slot.offer();
    assert!(bench.wake());
    bench.finish(false);
    assert_eq!((bench.compilations, bench.published, bench.reported), (1, 0, 1));
    bench.slot.offer();
    assert!(bench.wake());
    bench.finish(true);
    assert_eq!((bench.compilations, bench.published, bench.reported), (2, 1, 1));
}

#[test]
fn worker_round() {
    assert_eq!(worker_start(), (S::Waiting, A::AwaitRequest));
    assert_eq!(worker_step(S::Waiting, E::RequestReceived), Some((S::Compiling, A::Compile)));
    assert_eq!(worker_step(S::Compiling, E::CompileSucceeded), Some((S::Publishing, A::Publish)));
    assert_eq!(worker_step(S::Compiling, E::CompileFailed), Some((S::Waiting, A::ReportFailure)));
    assert_eq!(worker_step(S::Publishing, E::ResultTaken), Some((S::Waiting, A::AwaitRequest)));
}

#[test]
fn closed_channels_stop_the_worker() {
    assert_eq!(worker_step(S::Waiting, E::RequestsClosed), Some((S::Stopped, A::Stop)));
    assert_eq!(worker_step(S::Publishing, E::ResultsClosed), Some((S::Stopped, A::Stop)));
    for event in [
        E::RequestReceived,
        E::RequestsClosed,
        E::CompileSucceeded,
        E::CompileFailed,
        E::ResultTaken,
        E::ResultsClosed,
    ] {
        assert_eq!(worker_step(S::Stopped, event), None);
    }
}

#[test]
fn events_out_of_turn_have_no_successor() {
    for event in [E::CompileSucceeded, E::CompileFailed, E::ResultTaken, E::ResultsClosed] {
        assert_eq!(worker_step(S::Waiting, event), None);
    }
    for event in [E::RequestReceived, E::RequestsClosed, E::ResultTaken, E::ResultsClosed] {
        assert_eq!(worker_step(S::Compiling, event), None);
    }
    for event in [E::RequestReceived, E::RequestsClosed, E::CompileSucceeded, E::CompileFailed] {
        assert_eq!(worker_step(S::Publishing, event), None);
    }
}

#[test]
fn any_interleaving_keeps_the_counts_in_order() {
    for seed in 1..40u32 {
        let mut bench = Bench::new();
        let mut requests = 0u32;
        let mut finished = 0u32;
        let mut adopted = 0u32;
        let mut state = seed;
        for _ in 0..200 {
            state = state.wrapping_mul(1664525).wrapping_add(1013904223);
            match (state >> 16) % 5 {
                0 | 1 => {
                    let waited = bench.slot.pending();
                    assert_eq!(bench.slot.offer(), !waited);
                    requests += 1;
                }
                2 => {
                    if bench.state == WorkerState::Waiting {
                        bench.wake();
                    }
                }
                3 => {
                    if bench.state == WorkerState::Compiling {
                        if state & 1 == 0 {
                            bench.apply(WorkerEvent::CompileSucceeded);
                        } else {
                            bench.apply(WorkerEvent::CompileFailed);
                        }
                        finished += 1;
                    }
                }
                _ => {
                    if bench.state == WorkerState::Publishing {
                        bench.apply(WorkerEvent::ResultTaken);
                        adopted += 1;
                    }
                }
            }
            let running = (bench.state == WorkerState::Compiling) as u32;
            let held_out = (bench.state == WorkerState::Publishing) as u32;
            let waiting = bench.slot.pending() as u32;
            assert_eq!(bench.compilations, finished + running);
            assert!(adopted + held_out <= finished);
            assert!(bench.compilations + waiting <= requests);
            assert!(adopted <= requests);
        }
    }
}
