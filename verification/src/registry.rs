//! What the core decides around its registry of services.

use vstd::prelude::*;
use crate::error::{InitiationError, ProtocolError};
use crate::shared::HandlerType;

verus! {

/// Why a change to the registry did not take.
#[derive(Debug, Clone, Copy, PartialEq, Eq, Structural)]
pub enum RegistryError {
    /// The change did not touch exactly one service.
    NotFound,
}

/// The pattern that finds the services whose name contains `name`: `%name%`.
pub open spec fn spec_name_pattern(name: Seq<char>) -> Seq<char> {
    "%"@ + name + "%"@
}

/// The pattern under which the registry searches for `service_name`.
pub fn name_pattern(service_name: &String) -> (r: String)
    ensures
        r@ == spec_name_pattern(service_name@),
{
    let mut r = String::from_str("%");
    r.append(service_name.as_str());
    r.append("%");
    r
}

/// The outcome of an update or a removal that touched `affected` services: it must
/// have touched exactly one.
pub fn expect_single_row(affected: usize) -> (r: Result<(), RegistryError>)
    ensures
        r is Ok <==> affected == 1,
        r matches Err(e) ==> e == RegistryError::NotFound,
{
    if affected != 1 {
        Err(RegistryError::NotFound)
    } else {
        Ok(())
    }
}

/// The services that provide `service`; none can be listed yet.
pub fn get_service_providers(service: HandlerType) -> (r: Result<Vec<String>, ProtocolError>)
    ensures
        r matches Err(e) && e == ProtocolError::Initiation(InitiationError::ServiceNotSupported),
{
    Err(ProtocolError::Initiation(InitiationError::ServiceNotSupported))
}

/// The services that consume `service`; none can be listed yet.
pub fn get_service_consumers(service: HandlerType) -> (r: Result<Vec<String>, ProtocolError>)
    ensures
        r matches Err(e) && e == ProtocolError::Initiation(InitiationError::ServiceNotSupported),
{
    Err(ProtocolError::Initiation(InitiationError::ServiceNotSupported))
}

} // verus!
