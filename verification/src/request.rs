//! The actions of a request, as the request library names them.

use vstd::prelude::*;

verus! {

/// What a request asks to do.
#[derive(Debug, Clone, Copy, PartialEq, Eq, Structural)]
pub enum Action {
    Get,
    Put,
    Pop,
    Edit,
}

} // verus!
