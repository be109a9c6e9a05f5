//! A cellular automaton on a bounded board, and the bookkeeping that keeps its
//! GPU programs fresh while frames are being drawn.
//!
//! The crate holds the parts that decide and compute: the step kernel with its
//! hard board edges, the dispatch of that kernel over tile groups, the checks on
//! a compiled shader artifact, the all-or-nothing replacement of the pipeline
//! set, the protocol of the background compilation worker, and the per-frame
//! state machine. Windows, devices and threads are left to the caller, which
//! reports what happened and is told what to do next.

pub mod artifact;
pub mod board;
pub mod dispatch;
pub mod frame;
pub mod glider;
pub mod kernel;
pub mod pipeline;
pub mod program;
pub mod reload;
pub mod shader;
