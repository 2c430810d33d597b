use vstd::prelude::*;

pub mod classify;
pub mod echo;
pub mod envelope;
pub mod fetch;
pub mod fs_tools;
pub mod router;
pub mod service;

verus! {

} // verus!
