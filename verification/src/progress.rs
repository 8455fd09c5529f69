//! Procedures that go step by step.
//!
//! Where a procedure needs something done that this library does not do
//! itself, it stops and names the step; it is called again with what the
//! step gave, until it ends with its result.

use vstd::prelude::*;

verus! {

/// Where a procedure that goes step by step stands: at a step that is to
/// be taken, or at its result.
#[derive(Debug)]
pub enum Progress<S, T> {
    Continue(S),
    Done(T),
}

} // verus!
