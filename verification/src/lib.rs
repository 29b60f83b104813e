//! Decision logic of a set of small Unix process experiments: process-group
//! placement of spawned children, decoding of `waitpid` status words, and the
//! bookkeeping that checks which processes a `waitid` on a process group reaps.
//!
//! Every system call stays with the caller; this crate decides what to call
//! next and judges what came back.

pub mod pgrp;
pub mod pidset;
pub mod reaper;
pub mod spawn;
pub mod verdicts;
pub mod wait_status;
