use quiver::calendar::{handle_request, handler_verdict, item_length, put_reply, store_verdict};
use quiver::error::{ConnectionActionError, InitiationError, ProtocolError, TransactionError};
use quiver::handlers::HandlerGroup;
use quiver::shared::{Action, HandlerType};

#[test]
fn handler_group_routes_registered_interfaces() {
    let mut g: HandlerGroup<u32> = HandlerGroup::new();
    assert!(g.get(HandlerType::Calendar).is_none());
    g.add_handler(HandlerType::Calendar, 1);
    g.add_handler(HandlerType::Vpn, 2);
    assert_eq!(g.get(HandlerType::Calendar), Some(&1));
    assert_eq!(g.get(HandlerType::Vpn), Some(&2));
    // A second handler for an interface replaces the first.
    g.add_handler(HandlerType::Calendar, 3);
    assert_eq!(g.get(HandlerType::Calendar), Some(&3));
    assert_eq!(g.get(HandlerType::Vpn), Some(&2));
    assert!(matches!(g.handle_connection(HandlerType::Calendar), Ok(&3)));
    match g.handle_connection(HandlerType::Nfc) {
        Err(ProtocolError::Initiation(InitiationError::ServiceNotSupported)) => {},
        other => panic!("{:?}", other),
    }
}

#[test]
fn calendar_serves_put_only() {
    assert!(handle_request(Action::Put).is_ok());
    for (a, text) in [(Action::Get, "get"), (Action::Pop, "pop"), (Action::Edit, "edit")] {
        match handle_request(a) {
            Err(ConnectionActionError::UnsupportedActionError { recieved, service }) => {
                assert_eq!(recieved, text);
                assert_eq!(service, "calendar");
            },
            other => panic!("{:?}", other),
        }
    }
}

#[test]
fn calendar_item_length() {
    assert_eq!(item_length(b"      42"), Some(42));
    assert_eq!(item_length(b"12345678"), Some(12345678));
    assert_eq!(item_length(b"abcdefgh"), None);
    assert_eq!(item_length(b"-1      "), None);
}

#[test]
fn calendar_put_replies() {
    assert_eq!(put_reply(true), (true, Some("Successful 'put' from client".to_owned())));
    assert_eq!(put_reply(false), (false, None));
}

#[test]
fn client_verdicts() {
    assert!(handler_verdict(true).is_ok());
    match handler_verdict(false) {
        Err(ProtocolError::Initiation(InitiationError::ServiceNotSupported)) => {},
        other => panic!("{:?}", other),
    }
    assert!(store_verdict(true).is_ok());
    match store_verdict(false) {
        Err(ProtocolError::Transaction(TransactionError::SerializeToWriterFailed)) => {},
        other => panic!("{:?}", other),
    }
}
