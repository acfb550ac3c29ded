//! Types shared by the core, the handlers and the clients.

use vstd::prelude::*;

verus! {

/// Socket of the service manager (permission handler).
pub const SERVICE_MANAGER_SOCKET_ADDR: &'static str = "/tmp/quiver.service_manager.sock";
/// Socket of the calendar handler.
pub const CALENDAR_SOCKET_ADDR: &'static str = "/tmp/quiver.calendar.sock";
/// Socket of the NFC handler.
pub const NFC_SOCKET_ADDR: &'static str = "/tmp/quiver.nfc.sock";
/// Socket of the VPN handler.
pub const VPN_SOCKET_ADDR: &'static str = "/tmp/quiver.vpn.sock";
/// Where the core's public key is kept.
pub const SERVER_PUBLIC_KEY_PATH: &'static str = "./run/public.pem";

/// What a permission lets its holder do with a service's data.
#[derive(Debug, Clone, Copy, PartialEq, Eq, Structural)]
pub enum PermissionState {
    Read,
    Write,
    ReadWrite,
}

/// The service interfaces that the core brokers.
#[derive(Debug, Clone, Copy, PartialEq, Eq, Structural, Hash)]
pub enum HandlerType {
    All,
    Calendar,
    Vpn,
    Nfc,
}

/// What a connection asks to do with the service it reached.
#[derive(Debug, Clone, Copy, PartialEq, Eq, Structural)]
pub enum Action {
    Get,
    Put,
    Pop,
    Edit,
}

/// A permission of a registered service on one interface.
#[derive(Debug, Clone)]
pub struct Permission {
    pub state: PermissionState,
    pub service: HandlerType,
    pub included: Vec<String>,
}

/// Kinds of public key a service may register.
#[derive(Debug, Clone, Copy)]
pub enum PubKey {
    Ecc(()),
    Ntru(()),
    Rsa(()),
}

/// Arguments of a call into a third-party service.
#[derive(Debug, Clone, Copy)]
pub enum FunctionArgTypes {
    UInt(u64),
    IInt(i64),
    Bool(bool),
}

/// The interfaces that the core can run, in the order in which they are started.
pub open spec fn spec_all_handlers() -> Seq<HandlerType> {
    seq![HandlerType::Calendar, HandlerType::Nfc, HandlerType::Vpn]
}

impl HandlerType {
    /// Every concrete interface (all but `All`).
    pub fn all_handlers() -> (r: Vec<HandlerType>)
        ensures
            r@ == spec_all_handlers(),
    {
        let r = vec![HandlerType::Calendar, HandlerType::Nfc, HandlerType::Vpn];
        assert(r@ =~= spec_all_handlers());
        r
    }
}

impl Permission {
    /// A permission equals an interface when it is a permission on that interface.
    pub fn eq(&self, other: &HandlerType) -> (r: bool)
        ensures
            r == (self.service == *other),
    {
        self.service == *other
    }
}

/// The text of an action, as the handlers print it.
pub open spec fn action_text(a: Action) -> Seq<char> {
    match a {
        Action::Get => "get"@,
        Action::Put => "put"@,
        Action::Pop => "pop"@,
        Action::Edit => "edit"@,
    }
}

impl Action {
    /// The lower-case name of the action ("get", "put", "pop" or "edit").
    pub fn to_string(&self) -> (r: String)
        ensures
            r@ == action_text(*self),
    {
        match self {
            Action::Get => String::from_str("get"),
            Action::Put => String::from_str("put"),
            Action::Pop => String::from_str("pop"),
            Action::Edit => String::from_str("edit"),
        }
    }
}

} // verus!
