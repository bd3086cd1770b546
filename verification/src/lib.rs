//! Decision engines for repository automation: a merge guardian that scores
//! pull requests and a dispatcher that routes issues to coding agents.

pub mod commands;
pub mod context;
pub mod dispatcher_core;
pub mod guardian_core;
pub mod intake;
pub mod intelligence;
pub mod reporter;
pub mod rotation;
pub mod runs;
pub mod scoring;
pub mod split;
pub mod text;
pub mod validator;
pub mod write_back;
