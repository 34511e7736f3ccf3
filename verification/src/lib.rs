//! Process bridge for a commit-log GUI: builds the argument vectors for an
//! external version-control tool and an OS screenshot utility, and maps each
//! finished subprocess's exit status and captured output to a success value or
//! a typed error. Spawning the processes is the surrounding binary's job; the
//! logic that decides what to run and what the outcome means lives here.

pub mod args;
pub mod errors;
pub mod logline;
pub mod outcome;
pub mod screenshot;
pub mod split;
