//! Decision logic for driving a remotely debuggable browser through
//! unattended uploads: page scoring and selection, readiness guards, the
//! upload strategy cascade, geometry click scoring, bounded polling, and
//! error classification.
pub mod cascade;
pub mod chooser;
pub mod config;
pub mod errors;
pub mod geometry;
pub mod outcome;
pub mod platforms;
pub mod polling;
pub mod readiness;
pub mod session;
pub mod signal;
pub mod strategies;
pub mod target;
pub mod text;
