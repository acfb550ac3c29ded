use openssl::ec::{EcGroup, EcKey};
use openssl::nid::Nid;
use openssl::pkey::Private;

use quiver::calendar::{handle_request, handler_verdict, put_reply, store_verdict};
use quiver::client_authorization::ClientAuthorization;
use quiver::connect::ServerConnection;
use quiver::crypto::{PrivateKey, PublicKey};
use quiver::error::{AuthenticationError, AuthorizationError, ProtocolError};
use quiver::handlers::HandlerGroup;
use quiver::handshake::{Message, ServerOutput, ServiceRecord};
use quiver::shared::{Action, HandlerType, Permission, PermissionState};

fn new_key() -> EcKey<Private> {
    let group = EcGroup::from_curve_name(Nid::SECP384R1).unwrap();
    EcKey::generate(&group).unwrap()
}

fn calendar_permission(state: PermissionState) -> Permission {
    Permission { state, service: HandlerType::Calendar, included: vec!["All".to_owned()] }
}

/// A registry entry: name, permissions, PEM public key.
struct Entry {
    name: String,
    permissions: Vec<Permission>,
    public_key: Vec<u8>,
}

fn register(name: &str, state: PermissionState, key: &EcKey<Private>) -> Entry {
    Entry {
        name: name.to_owned(),
        permissions: vec![calendar_permission(state)],
        public_key: key.public_key_to_pem().unwrap(),
    }
}

/// The registry answers with the first service whose name contains the one asked for.
fn look_up(registry: &[Entry], name: &str) -> Option<ServiceRecord> {
    registry.iter().find(|e| e.name.contains(name)).map(|e| ServiceRecord {
        permissions: e.permissions.clone(),
        public_key: e.public_key.clone(),
    })
}

/// Runs the handshake of the service `name`, holding `key`, with the core, which holds
/// `core_key` and the registry `registry`; returns how each end finished.
fn handshake(
    registry: &[Entry],
    name: &str,
    key: &EcKey<Private>,
    action: Action,
) -> (Result<(HandlerType, Action), String>, Result<(), String>) {
    let core_key = new_key();
    let core_private = PrivateKey::from_pem(&core_key.private_key_to_pem().unwrap()).unwrap();
    let core_public = PublicKey::from_pem(&core_key.public_key_to_pem().unwrap()).unwrap();
    let service_private = PrivateKey::from_pem(&key.private_key_to_pem().unwrap()).unwrap();

    let mut core = ClientAuthorization::new(core_private);
    let (mut service, first) =
        ServerConnection::new(name.to_owned(), service_private, core_public, HandlerType::Calendar, action);

    let mut to_core: Vec<Message> = vec![first];
    let mut steps = 0;
    while !to_core.is_empty() && steps < 100 {
        steps += 1;
        let msg = to_core.remove(0);
        let mut output = core.receive(msg);
        if let ServerOutput::LookUp(n) = &output {
            let record = look_up(registry, n);
            output = core.record(record);
        }
        if let ServerOutput::Send(reply) = output {
            to_core.extend(service.receive(reply));
        }
    }
    let core_end = match core.outcome() {
        Some(Ok(r)) => Ok(r),
        Some(Err(e)) => Err(format!("{:?}", e)),
        None => Err("unfinished".to_owned()),
    };
    let service_end = match service.outcome() {
        Some(Ok(())) => Ok(()),
        Some(Err(e)) => Err(format!("{:?}", e)),
        None => Err("unfinished".to_owned()),
    };
    (core_end, service_end)
}

/// A `put` of a calendar item after the handshake: the core routes the connection to
/// its calendar handler, which stores the item.
fn put_item(registry: &[Entry], name: &str, key: &EcKey<Private>) -> Result<(), String> {
    let (core_end, service_end) = handshake(registry, name, key, Action::Put);
    let (service, action) = core_end?;
    service_end?;
    let mut group: HandlerGroup<&str> = HandlerGroup::new();
    group.add_handler(HandlerType::Calendar, "calendar");
    let routed = group.handle_connection(service);
    handler_verdict(routed.is_ok()).map_err(|e| format!("{:?}", e))?;
    handle_request(action).map_err(|e| e.to_string())?;
    let (stored, _log) = put_reply(true);
    store_verdict(stored).map_err(|e| format!("{:?}", e))
}

fn is_authentication_error(e: &str) -> bool {
    e == format!("{:?}", ProtocolError::Authentication(AuthenticationError::AuthenticationFailed))
}

fn is_authorization_error(e: &str) -> bool {
    e == format!("{:?}", ProtocolError::Authorization(AuthorizationError::AuthorizationFailed))
}

#[test]
fn main_send_item() {
    let key = new_key();
    let registry = vec![register("test", PermissionState::ReadWrite, &key)];
    let res = put_item(&registry, "test", &key);
    assert!(res.is_ok(), "{:?}", res);
}

#[test]
fn send_item_different_user() {
    let key = new_key();
    let other = new_key();
    let registry = vec![
        register("test", PermissionState::ReadWrite, &key),
        register("test2", PermissionState::ReadWrite, &other),
    ];
    // The service claims the name "test" but holds the key of "test2".
    let res = put_item(&registry, "test", &other);
    match res {
        Ok(_) => panic!("a service with another service's key was let in"),
        Err(e) => assert!(is_authentication_error(&e), "{}", e),
    }
}

#[test]
fn send_item_no_permissions() {
    let key = new_key();
    let registry = vec![register("test", PermissionState::Read, &key)];
    let res = put_item(&registry, "test", &key);
    match res {
        Ok(_) => panic!("a put was granted to a read-only service"),
        Err(e) => assert!(is_authorization_error(&e), "{}", e),
    }
}

#[test]
fn send_item_wrong_permissions() {
    let key = new_key();
    let registry = vec![register("test", PermissionState::Read, &key)];
    let (core_end, service_end) = handshake(&registry, "test", &key, Action::Put);
    assert!(is_authorization_error(&core_end.unwrap_err()));
    assert!(is_authorization_error(&service_end.unwrap_err()));
}

#[test]
fn send_item_wrong_key() {
    let key = new_key();
    let registry = vec![register("test", PermissionState::ReadWrite, &key)];
    let wrong = new_key();
    let res = put_item(&registry, "test", &wrong);
    match res {
        Ok(_) => panic!("a service with the wrong key was let in"),
        Err(e) => assert!(is_authentication_error(&e), "{}", e),
    }
}

#[test]
fn unregistered_service_is_refused() {
    let key = new_key();
    let registry: Vec<Entry> = vec![];
    let (core_end, service_end) = handshake(&registry, "nobody", &key, Action::Get);
    let e = core_end.unwrap_err();
    assert!(e.contains("ServiceNotRegistered"), "{}", e);
    assert!(e.contains("nobody"), "{}", e);
    // The service never got a challenge.
    assert_eq!(service_end.unwrap_err(), "unfinished");
}

#[test]
fn read_only_service_may_get() {
    let key = new_key();
    let registry = vec![register("reader", PermissionState::Read, &key)];
    let (core_end, service_end) = handshake(&registry, "reader", &key, Action::Get);
    assert_eq!(core_end.unwrap(), (HandlerType::Calendar, Action::Get));
    assert!(service_end.is_ok());
}

#[test]
fn write_only_service_may_not_get() {
    let key = new_key();
    let registry = vec![register("writer", PermissionState::Write, &key)];
    let (core_end, service_end) = handshake(&registry, "writer", &key, Action::Get);
    assert!(is_authorization_error(&core_end.unwrap_err()));
    assert!(is_authorization_error(&service_end.unwrap_err()));
}

#[test]
fn no_permission_on_interface_gets_no_answer() {
    let key = new_key();
    let registry = vec![Entry {
        name: "vpn-only".to_owned(),
        permissions: vec![Permission {
            state: PermissionState::ReadWrite,
            service: HandlerType::Vpn,
            included: vec![],
        }],
        public_key: key.public_key_to_pem().unwrap(),
    }];
    let (core_end, service_end) = handshake(&registry, "vpn-only", &key, Action::Get);
    assert!(is_authorization_error(&core_end.unwrap_err()));
    // The core does not answer the request, so the service still waits.
    assert_eq!(service_end.unwrap_err(), "unfinished");
}

#[test]
fn invalid_registered_key_is_refused() {
    let key = new_key();
    let registry = vec![Entry {
        name: "broken".to_owned(),
        permissions: vec![calendar_permission(PermissionState::ReadWrite)],
        public_key: b"not a key".to_vec(),
    }];
    let (core_end, _) = handshake(&registry, "broken", &key, Action::Get);
    assert_eq!(core_end.unwrap_err(), format!("{:?}", ProtocolError::InvalidKey));
}
