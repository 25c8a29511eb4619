//! Switch a local checkout to the branch of a hosted merge or pull request,
//! given only the request's number.
//!
//! The library decides everything that does not touch the repository or the
//! network: which hosting provider a remote points at, where credentials and
//! project bindings are kept, how a request number turns into a remote and a
//! local branch name, and how an open-request listing is laid out.
use vstd::prelude::*;

pub mod client;
pub mod commands;
pub mod config;
pub mod error;
pub mod text;
pub mod url;

verus! {

} // verus!
