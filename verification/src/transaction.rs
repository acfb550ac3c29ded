//! The action of a generic transaction with a service.

use vstd::prelude::*;
use crate::shared::Action;

verus! {

/// The action of a transaction that carries a reference and an item, either of which
/// may be absent: a reference means an edit of what it refers to, an item alone means
/// a new item, and neither means a read.
pub open spec fn spec_transaction_action(has_reference: bool, has_item: bool) -> Action {
    if has_reference {
        Action::Edit
    } else if has_item {
        Action::Put
    } else {
        Action::Get
    }
}

/// The action of a transaction with the given reference and item.
pub fn transaction_action<R, T>(reference: Option<&R>, item: Option<&T>) -> (r: Action)
    ensures
        r == spec_transaction_action(reference is Some, item is Some),
{
    match reference {
        Some(_) => Action::Edit,
        None => match item {
            Some(_) => Action::Put,
            None => Action::Get,
        },
    }
}

} // verus!
