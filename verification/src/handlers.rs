//! Which interfaces the core runs, and which handler serves a connection.

use vstd::prelude::*;
use std::collections::HashMap;
use crate::error::{InitiationError, ProtocolError};
use crate::shared::{spec_all_handlers, HandlerType, NFC_SOCKET_ADDR};

verus! {

/// The interfaces that the core starts for a configured list: every interface when
/// the list names `All`, the list itself otherwise.
pub open spec fn spec_active_handlers(configured: Seq<HandlerType>) -> Seq<HandlerType> {
    if configured.contains(HandlerType::All) {
        spec_all_handlers()
    } else {
        configured
    }
}

/// The interfaces that the core starts for the configured list `configured`.
pub fn active_handlers(configured: Vec<HandlerType>) -> (r: Vec<HandlerType>)
    ensures
        r@ == spec_active_handlers(configured@),
{
    let mut i: usize = 0;
    while i < configured.len()
        invariant
            i <= configured@.len(),
            forall|j: int| 0 <= j < i ==> configured@[j] != HandlerType::All,
        decreases configured@.len() - i,
    {
        if configured[i] == HandlerType::All {
            proof {
                assert(configured@.contains(HandlerType::All)) by {
                    assert(configured@[i as int] == HandlerType::All);
                }
            }
            return HandlerType::all_handlers();
        }
        i = i + 1;
    }
    configured
}

/// The core never starts `All` as an interface of its own, and it starts every
/// interface when `All` is configured.
pub proof fn lemma_active_handlers(configured: Seq<HandlerType>)
    ensures
        !spec_active_handlers(configured).contains(HandlerType::All),
        configured.contains(HandlerType::All) ==> spec_active_handlers(configured) == spec_all_handlers(),
        !configured.contains(HandlerType::All) ==> spec_active_handlers(configured) == configured,
        spec_active_handlers(spec_active_handlers(configured)) == spec_active_handlers(configured),
{
    if configured.contains(HandlerType::All) {
        assert(!spec_all_handlers().contains(HandlerType::All)) by {
            if spec_all_handlers().contains(HandlerType::All) {
                let i = choose|i: int| 0 <= i < spec_all_handlers().len() && spec_all_handlers()[i] == HandlerType::All;
                assert(0 <= i < 3);
            }
        }
    }
}

/// Where a handler listens, and which interface it serves.
#[derive(Debug)]
pub struct ListenerConfig {
    pub address: String,
    pub handler: HandlerType,
}

/// The listener of the NFC interface.
pub fn start_listener() -> (r: ListenerConfig)
    ensures
        r.address@ == NFC_SOCKET_ADDR@,
        r.handler == HandlerType::Nfc,
{
    ListenerConfig { address: String::from_str(NFC_SOCKET_ADDR), handler: HandlerType::Nfc }
}

/// The number under which the handlers of an interface are kept.
pub open spec fn handler_code(t: HandlerType) -> u8 {
    match t {
        HandlerType::All => 0,
        HandlerType::Calendar => 1,
        HandlerType::Vpn => 2,
        HandlerType::Nfc => 3,
    }
}

/// The number under which the handlers of `t` are kept.
fn code(t: HandlerType) -> (r: u8)
    ensures
        r == handler_code(t),
{
    match t {
        HandlerType::All => 0,
        HandlerType::Calendar => 1,
        HandlerType::Vpn => 2,
        HandlerType::Nfc => 3,
    }
}

/// The handlers of the core, one per interface, in a hash map keyed by each
/// interface's number.
pub struct HandlerGroup<H> {
    handlers: HashMap<u8, H>,
}

impl<H> View for HandlerGroup<H> {
    type V = Map<HandlerType, H>;

    closed spec fn view(&self) -> Map<HandlerType, H> {
        Map::new(
            |k: HandlerType| self.handlers@.contains_key(handler_code(k)),
            |k: HandlerType| self.handlers@[handler_code(k)],
        )
    }
}

impl<H> HandlerGroup<H> {
    /// A group with no handler.
    pub fn new() -> (r: Self)
        ensures
            r@ == Map::<HandlerType, H>::empty(),
    {
        let r = HandlerGroup { handlers: HashMap::new() };
        proof {
            assert(r@ =~= Map::<HandlerType, H>::empty());
        }
        r
    }

    /// Makes `handler` the handler of `type_`, in place of any earlier one.
    pub fn add_handler(&mut self, type_: HandlerType, handler: H)
        ensures
            final(self)@ == old(self)@.insert(type_, handler),
    {
        broadcast use vstd::std_specs::hash::group_hash_axioms;
        let ghost before = self@;
        self.handlers.insert(code(type_), handler);
        proof {
            assert forall|k: HandlerType| #[trigger] handler_code(k) == handler_code(type_) implies k == type_ by {}
            assert(self@ =~= before.insert(type_, handler));
        }
    }

    /// The handler of `service`, if the group has one.
    pub fn get(&self, service: HandlerType) -> (r: Option<&H>)
        ensures
            r is Some <==> self@.contains_key(service),
            r matches Some(h) ==> *h == self@[service],
    {
        broadcast use vstd::std_specs::hash::group_hash_axioms;
        let c = code(service);
        self.handlers.get(&c)
    }

    /// Routes an authorized connection for `service`: to its handler, to which the
    /// connection is told `true`, or to a refusal, which is told `false`.
    pub fn handle_connection(&self, service: HandlerType) -> (r: Result<&H, ProtocolError>)
        ensures
            r is Ok <==> self@.contains_key(service),
            r matches Ok(h) ==> *h == self@[service],
            r matches Err(e) ==> e == ProtocolError::Initiation(InitiationError::ServiceNotSupported),
    {
        match self.get(service) {
            Some(h) => Ok(h),
            None => Err(ProtocolError::Initiation(InitiationError::ServiceNotSupported)),
        }
    }
}

} // verus!
