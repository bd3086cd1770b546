//! The decisions behind the command line: which git command to run, which
//! repository a remote points at, which issues to ask for.

pub mod git;
pub mod issue;
