//! Mirrors a local directory tree onto a remote host: which entries take part,
//! where each goes, which remote directories are known to exist, and what came
//! of each entry. The remote channel, the local file system and the workers
//! are driven by the caller, which hands the results of its calls back here.
use vstd::prelude::*;

pub mod config;
pub mod engine;
pub mod filter;
pub mod outcome;
pub mod path;
pub mod remote_dirs;
pub mod work_queue;

verus! {

} // verus!
