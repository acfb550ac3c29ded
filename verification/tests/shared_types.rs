use quiver::config;
use quiver::core_config::{self, CoreSettings};
use quiver::error::{AuthenticationError, AuthorizationError, ConnectionActionError, InitiationError, TransactionError};
use quiver::handler_enums;
use quiver::handlers::{active_handlers, start_listener};
use quiver::registry::{expect_single_row, get_service_consumers, get_service_providers, name_pattern, RegistryError};
use quiver::shared::{Action, HandlerType, NFC_SOCKET_ADDR};
use quiver::transaction::transaction_action;

#[test]
fn all_handlers_lists_every_interface() {
    assert_eq!(HandlerType::all_handlers(), vec![HandlerType::Calendar, HandlerType::Nfc, HandlerType::Vpn]);
}

#[test]
fn action_text() {
    assert_eq!(Action::Get.to_string(), "get");
    assert_eq!(Action::Put.to_string(), "put");
    assert_eq!(Action::Pop.to_string(), "pop");
    assert_eq!(Action::Edit.to_string(), "edit");
}

#[test]
fn active_handlers_expand_all() {
    assert_eq!(active_handlers(vec![HandlerType::All]), HandlerType::all_handlers());
    assert_eq!(active_handlers(vec![HandlerType::Vpn, HandlerType::All]), HandlerType::all_handlers());
    assert_eq!(active_handlers(vec![HandlerType::Vpn, HandlerType::Nfc]), vec![HandlerType::Vpn, HandlerType::Nfc]);
    assert_eq!(active_handlers(vec![]), vec![]);
}

#[test]
fn default_configs() {
    let c: config::CoreConfig = Default::default();
    assert_eq!(c.active_handlers, vec![HandlerType::All]);
    assert!(c.persistent_config);
    assert_eq!(c.core_db_path, "./run/core.sqlite");
    let c: core_config::CoreConfig = Default::default();
    assert_eq!(c.active_handlers, vec![HandlerType::All]);
    assert!(c.persistent_config);
    assert_eq!(c.core_db_path, "./run/core.sqlite");
    assert_eq!(c.server_key_path, "./run/private.pem");
}

#[test]
fn config_after_failed_load() {
    let stored = core_config::CoreConfig::after_failed_load(true);
    assert!(stored.persistent_config);
    let unstored = core_config::CoreConfig::after_failed_load(false);
    assert!(!unstored.persistent_config);
    assert_eq!(unstored.server_key_path, "./run/private.pem");
}

#[test]
fn core_settings_keep_their_handlers() {
    let s = CoreSettings::new(vec![handler_enums::HandlerType::Calendar, handler_enums::HandlerType::All]);
    assert_eq!(s.handlers(), &vec![handler_enums::HandlerType::Calendar, handler_enums::HandlerType::All]);
}

#[test]
fn transaction_actions() {
    let r = 1u8;
    let i = 2u8;
    assert_eq!(transaction_action(Some(&r), Some(&i)), Action::Edit);
    assert_eq!(transaction_action(Some(&r), None::<&u8>), Action::Edit);
    assert_eq!(transaction_action(None::<&u8>, Some(&i)), Action::Put);
    assert_eq!(transaction_action(None::<&u8>, None::<&u8>), Action::Get);
}

#[test]
fn nfc_listener_address() {
    let l = start_listener();
    assert_eq!(l.address, NFC_SOCKET_ADDR);
    assert_eq!(l.address, "/tmp/quiver.nfc.sock");
    assert_eq!(l.handler, HandlerType::Nfc);
}

#[test]
fn registry_decisions() {
    assert_eq!(name_pattern(&"test".to_owned()), "%test%");
    assert_eq!(name_pattern(&String::new()), "%%");
    assert_eq!(expect_single_row(1), Ok(()));
    assert_eq!(expect_single_row(0), Err(RegistryError::NotFound));
    assert_eq!(expect_single_row(2), Err(RegistryError::NotFound));
    assert!(get_service_providers(HandlerType::Calendar).is_err());
    assert!(get_service_consumers(HandlerType::Vpn).is_err());
}

#[test]
fn error_messages() {
    let e = ConnectionActionError::UnexpectedActionError {
        expected: "a".to_owned(),
        recieved: "b".to_owned(),
        action: "put".to_owned(),
        service: "calendar".to_owned(),
    };
    assert_eq!(e.to_string(), "Expected 'a' got 'b' while waiting to 'put' item to 'calendar'.");
    let e = ConnectionActionError::UnsupportedActionError { recieved: "get".to_owned(), service: "calendar".to_owned() };
    assert_eq!(e.to_string(), "'get' not supported for 'calendar' service.");
    assert_eq!(InitiationError::ServiceNotSupported.to_string(), "Service not supported");
    assert_eq!(
        AuthenticationError::ClientFailedAuthentication { client: "x".to_owned() }.to_string(),
        "'x' failed to authenticate."
    );
    assert_eq!(AuthenticationError::AuthenticationFailed.to_string(), "Failed to authenticate.");
    assert_eq!(
        AuthenticationError::ServiceNotRegistered { name: "svc".to_owned() }.to_string(),
        "Service 'svc' not registered."
    );
    let e = AuthorizationError::ClientFailedAuthorization {
        client: "c".to_owned(),
        action: "get".to_owned(),
        service: "calendar".to_owned(),
    };
    assert_eq!(e.to_string(), "'c' failed authorization for 'get' action for 'calendar' service.");
    assert_eq!(AuthorizationError::AuthorizationFailed.to_string(), "Failed to authorize.");
    assert_eq!(TransactionError::SerializeToWriterFailed.to_string(), "Serialize to writer failed.");
    assert_eq!(TransactionError::AuthorizationFailed.to_string(), "Failed to authorize.");
    let e = TransactionError::ClientFailedAuthorization {
        client: "c".to_owned(),
        action: "put".to_owned(),
        service: "vpn".to_owned(),
    };
    assert_eq!(e.to_string(), "'c' failed authorization for 'put' action for 'vpn' service.");
}
