//! The interfaces as the handler library names them.

use vstd::prelude::*;

verus! {

/// An interface of the handler library.
#[derive(Debug, Clone, Copy, PartialEq, Eq, Structural)]
pub enum HandlerType {
    All,
    Calendar,
}

} // verus!
