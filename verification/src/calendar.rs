//! The calendar interface: what its handler and its clients decide.

use vstd::prelude::*;
use crate::error::{ConnectionActionError, InitiationError, ProtocolError, TransactionError};
use crate::shared::{action_text, Action};

verus! {

/// How many calendar items a request is about.
#[derive(Debug, Clone, Copy, PartialEq, Eq, Structural)]
pub enum CalendarAction {
    Single,
    Array,
    Range,
}

/// How many bytes announce the length of a calendar item.
pub const LENGTH_PREFIX_LEN: usize = 8;

/// The number that serde_json reads from `bytes` as a `u64`, if it reads one.
pub uninterp spec fn json_u64(bytes: Seq<u8>) -> Option<u64>;

/// Reads a JSON number (serde_json `from_slice::<u64>`).
///
/// Claimed: the result depends on the bytes alone; `None` stands for serde_json's error.
#[verifier::external_body]
fn parse_json_u64(bytes: &[u8]) -> (r: Option<u64>)
    ensures
        r == json_u64(bytes@),
{
    match serde_json::from_slice::<u64>(bytes) {
        Ok(n) => Some(n),
        Err(_) => None,
    }
}

/// The calendar handler's answer to a connection that was authorized for `action`:
/// it serves `put` and refuses everything else.
pub fn handle_request(action: Action) -> (r: Result<(), ConnectionActionError>)
    ensures
        r is Ok <==> action == Action::Put,
        r is Err ==> (r matches Err(ConnectionActionError::UnsupportedActionError { recieved, service }) && recieved@
            == action_text(action) && service@ == "calendar"@),
{
    match action {
        Action::Put => Ok(()),
        _ => Err(ConnectionActionError::UnsupportedActionError {
            recieved: action.to_string(),
            service: String::from_str("calendar"),
        }),
    }
}

/// The length of the calendar item that a client announces with `prefix`, the first
/// [`LENGTH_PREFIX_LEN`] bytes it sends; `None` when they are not a JSON number.
pub fn item_length(prefix: &[u8]) -> (r: Option<u64>)
    ensures
        r == json_u64(prefix@),
{
    parse_json_u64(prefix)
}

/// What the calendar handler tells a client after a `put`, and what it logs: `true`
/// and a success line when the item could be read, `false` otherwise.
pub fn put_reply(item_read: bool) -> (r: (bool, Option<String>))
    ensures
        r.0 == item_read,
        r.1 is Some <==> item_read,
        r.1 matches Some(line) ==> line@ == "Successful 'put' from client"@,
{
    if item_read {
        (true, Some(String::from_str("Successful 'put' from client")))
    } else {
        (false, None)
    }
}

/// A client's reading of the handler's first verdict after the handshake: `false`
/// means that the core runs no handler for the interface.
pub fn handler_verdict(accepted: bool) -> (r: Result<(), ProtocolError>)
    ensures
        r is Ok <==> accepted,
        r matches Err(e) ==> e == ProtocolError::Initiation(InitiationError::ServiceNotSupported),
{
    if accepted {
        Ok(())
    } else {
        Err(ProtocolError::Initiation(InitiationError::ServiceNotSupported))
    }
}

/// A client's reading of the handler's verdict on an item it sent: `false` means that
/// the item was not stored.
pub fn store_verdict(stored: bool) -> (r: Result<(), ProtocolError>)
    ensures
        r is Ok <==> stored,
        r matches Err(e) ==> e == ProtocolError::Transaction(TransactionError::SerializeToWriterFailed),
{
    if stored {
        Ok(())
    } else {
        Err(ProtocolError::Transaction(TransactionError::SerializeToWriterFailed))
    }
}

} // verus!
