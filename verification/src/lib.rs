//! A small library behind a browsable index of local source-control
//! repositories: discovering repositories under a filesystem root, rendering
//! a repository's README, recording and aggregating page visits, composing
//! the two HTML pages, and routing inbound request paths.

pub mod errors;
pub mod pages;
pub mod readme;
pub mod routes;
pub mod scan;
pub mod text;
pub mod visits;

use vstd::prelude::*;

verus! {

} // verus!
