//! Launch-and-dispatch protocol for single-shot sector-sealing workers.
//!
//! A worker process receives one work item from its parent (an identifier
//! and a sector size, as process arguments), resolves the parameter file
//! under a base directory taken from the environment, dispatches on the
//! sector size to one of a closed set of sector shapes, has the proving
//! engine run the phase, and writes the result or a diagnostic back to the
//! same file. This crate holds the decision logic of that protocol: argument
//! and size parsing, shape dispatch, parameter validation against the
//! dispatched shape, result framing, and the per-invocation state machine
//! that selects every file write and the final exit code. The surrounding
//! process (argument and environment access, file reads and writes, the
//! engine call itself) drives the state machine from outside the crate.

pub mod errors;
pub mod locate;
pub mod machine;
pub mod parse;
pub mod phase;
pub mod shape;
