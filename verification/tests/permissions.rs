use quiver::authorization::{authorize_request, find_permission, permits, AuthorizationDecision};
use quiver::shared::{Action, HandlerType, Permission, PermissionState};

fn perm(state: PermissionState, service: HandlerType) -> Permission {
    Permission { state, service, included: vec![] }
}

const ACTIONS: [Action; 4] = [Action::Get, Action::Put, Action::Pop, Action::Edit];

#[test]
fn read_write_permits_everything() {
    for a in ACTIONS {
        assert!(permits(PermissionState::ReadWrite, a));
    }
}

#[test]
fn read_permits_get_only() {
    assert!(permits(PermissionState::Read, Action::Get));
    assert!(!permits(PermissionState::Read, Action::Put));
    assert!(!permits(PermissionState::Read, Action::Pop));
    assert!(!permits(PermissionState::Read, Action::Edit));
}

#[test]
fn write_permits_all_but_get() {
    assert!(!permits(PermissionState::Write, Action::Get));
    assert!(permits(PermissionState::Write, Action::Put));
    assert!(permits(PermissionState::Write, Action::Pop));
    assert!(permits(PermissionState::Write, Action::Edit));
}

#[test]
fn first_permission_on_interface_decides() {
    let perms = vec![
        perm(PermissionState::ReadWrite, HandlerType::Vpn),
        perm(PermissionState::Read, HandlerType::Calendar),
        perm(PermissionState::ReadWrite, HandlerType::Calendar),
    ];
    assert_eq!(find_permission(&perms, HandlerType::Calendar), Some(1));
    assert_eq!(authorize_request(&perms, HandlerType::Calendar, Action::Get), AuthorizationDecision::Granted);
    // The later ReadWrite permission does not count.
    assert_eq!(authorize_request(&perms, HandlerType::Calendar, Action::Put), AuthorizationDecision::Refused);
    assert_eq!(authorize_request(&perms, HandlerType::Vpn, Action::Edit), AuthorizationDecision::Granted);
}

#[test]
fn no_permission_on_interface() {
    let perms = vec![perm(PermissionState::ReadWrite, HandlerType::Vpn)];
    assert_eq!(find_permission(&perms, HandlerType::Nfc), None);
    assert_eq!(authorize_request(&perms, HandlerType::Nfc, Action::Get), AuthorizationDecision::NoPermission);
    assert_eq!(authorize_request(&vec![], HandlerType::Calendar, Action::Get), AuthorizationDecision::NoPermission);
}

#[test]
fn other_interfaces_do_not_matter() {
    let only = vec![perm(PermissionState::Write, HandlerType::Calendar)];
    let mixed = vec![
        perm(PermissionState::Read, HandlerType::Nfc),
        perm(PermissionState::Write, HandlerType::Calendar),
        perm(PermissionState::ReadWrite, HandlerType::All),
    ];
    for a in ACTIONS {
        assert_eq!(
            authorize_request(&only, HandlerType::Calendar, a),
            authorize_request(&mixed, HandlerType::Calendar, a)
        );
    }
}

#[test]
fn all_is_an_interface_of_its_own() {
    // A permission on `All` does not stand for the other interfaces.
    let perms = vec![perm(PermissionState::ReadWrite, HandlerType::All)];
    assert_eq!(authorize_request(&perms, HandlerType::Calendar, Action::Get), AuthorizationDecision::NoPermission);
    assert_eq!(authorize_request(&perms, HandlerType::All, Action::Get), AuthorizationDecision::Granted);
}

#[test]
fn permission_equals_its_interface() {
    let p = perm(PermissionState::Read, HandlerType::Calendar);
    assert!(p.eq(&HandlerType::Calendar));
    assert!(!p.eq(&HandlerType::Vpn));
}
