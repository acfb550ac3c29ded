use openssl::ec::{EcGroup, EcKey};
use openssl::nid::Nid;
use openssl::pkey::Private;

use quiver::connect::ClientConnection;
use quiver::crypto::{PrivateKey, PublicKey};
use quiver::error::{AuthenticationError, AuthorizationError, InitiationError, ProtocolError};
use quiver::handshake::{judge, new_challenge, Judgement, Message, ServerOutput, ServiceRecord, CHALLENGE_LEN};
use quiver::listener::{ListenerAuthorization, ListenerConnection};
use quiver::server_authorization::ServerAuthorization;
use quiver::shared::{Action, HandlerType, Permission, PermissionState};

fn new_key() -> EcKey<Private> {
    let group = EcGroup::from_curve_name(Nid::SECP384R1).unwrap();
    EcKey::generate(&group).unwrap()
}

/// The core connects to a service: the service challenges first.
fn core_to_service(
    core_key: &EcKey<Private>,
    service_key: &EcKey<Private>,
    trusted_core_key: &EcKey<Private>,
    trusted_service_key: &EcKey<Private>,
    service_answers: bool,
) -> (String, String) {
    let mut core = ClientConnection::new(
        PrivateKey::from_pem(&core_key.private_key_to_pem().unwrap()).unwrap(),
        PublicKey::from_pem(&trusted_service_key.public_key_to_pem().unwrap()).unwrap(),
        HandlerType::Calendar,
        Action::Get,
    );
    let mut service = ServerAuthorization::new(
        PrivateKey::from_pem(&service_key.private_key_to_pem().unwrap()).unwrap(),
        PublicKey::from_pem(&trusted_core_key.public_key_to_pem().unwrap()).unwrap(),
    );
    let mut to_core = service.start();
    let mut to_service: Vec<Message> = vec![];
    let mut steps = 0;
    while (!to_core.is_empty() || !to_service.is_empty()) && steps < 100 {
        steps += 1;
        if !to_core.is_empty() {
            let m = to_core.remove(0);
            to_service.extend(core.receive(m));
        } else {
            let m = to_service.remove(0);
            to_core.extend(service.receive(m));
        }
    }
    // The service answers whether it supports the request.
    if let Some(Ok(_)) = service.outcome() {
        let _ = core.receive(Message::Verdict(service_answers));
    }
    let s = match service.outcome() {
        Some(Ok(r)) => format!("{:?}", r),
        Some(Err(e)) => format!("{:?}", e),
        None => "unfinished".to_owned(),
    };
    let c = match core.outcome() {
        Some(Ok(())) => "connected".to_owned(),
        Some(Err(e)) => format!("{:?}", e),
        None => "unfinished".to_owned(),
    };
    (s, c)
}

#[test]
fn core_connects_to_service() {
    let core = new_key();
    let svc = new_key();
    let (s, c) = core_to_service(&core, &svc, &core, &svc, true);
    assert_eq!(s, format!("{:?}", (HandlerType::Calendar, Action::Get)));
    assert_eq!(c, "connected");
}

#[test]
fn service_declines_request() {
    let core = new_key();
    let svc = new_key();
    let (_, c) = core_to_service(&core, &svc, &core, &svc, false);
    assert_eq!(c, format!("{:?}", ProtocolError::Initiation(InitiationError::ServiceNotSupported)));
}

#[test]
fn service_rejects_unknown_core() {
    let core = new_key();
    let impostor = new_key();
    let svc = new_key();
    let (s, c) = core_to_service(&impostor, &svc, &core, &svc, true);
    let failed = format!("{:?}", ProtocolError::Authentication(AuthenticationError::AuthenticationFailed));
    assert_eq!(s, failed);
    assert_eq!(c, failed);
}

#[test]
fn core_rejects_unknown_service() {
    let core = new_key();
    let svc = new_key();
    let impostor = new_key();
    let (s, c) = core_to_service(&core, &impostor, &core, &svc, true);
    let failed = format!("{:?}", ProtocolError::Authentication(AuthenticationError::AuthenticationFailed));
    assert_eq!(s, failed);
    assert_eq!(c, failed);
}

fn listener_run(state: PermissionState, registered: &EcKey<Private>, used: &EcKey<Private>, action: Action) -> (String, String) {
    let mut listener = ListenerAuthorization::new(HandlerType::Calendar);
    let (mut service, first) = ListenerConnection::new(
        "svc".to_owned(),
        PrivateKey::from_pem(&used.private_key_to_pem().unwrap()).unwrap(),
        action,
    );
    let record = ServiceRecord {
        permissions: vec![Permission { state, service: HandlerType::Calendar, included: vec![] }],
        public_key: registered.public_key_to_der().unwrap(),
    };
    let mut to_listener = vec![first];
    let mut steps = 0;
    while !to_listener.is_empty() && steps < 100 {
        steps += 1;
        let m = to_listener.remove(0);
        let mut out = listener.receive(m);
        if let ServerOutput::LookUp(_) = &out {
            out = listener.record(Some(record.clone()));
        }
        if let ServerOutput::Send(reply) = out {
            to_listener.extend(service.receive(reply));
        }
    }
    let l = match listener.outcome() {
        Some(Ok(a)) => format!("{:?}", a),
        Some(Err(e)) => format!("{:?}", e),
        None => "unfinished".to_owned(),
    };
    let s = match service.outcome() {
        Some(Ok(())) => "connected".to_owned(),
        Some(Err(e)) => format!("{:?}", e),
        None => "unfinished".to_owned(),
    };
    (l, s)
}

#[test]
fn listener_grants_permitted_action() {
    let k = new_key();
    let (l, s) = listener_run(PermissionState::ReadWrite, &k, &k, Action::Put);
    assert_eq!(l, format!("{:?}", Action::Put));
    assert_eq!(s, "connected");
}

#[test]
fn listener_refuses_forbidden_action() {
    let k = new_key();
    let (l, s) = listener_run(PermissionState::Read, &k, &k, Action::Edit);
    let refused = format!("{:?}", ProtocolError::Authorization(AuthorizationError::AuthorizationFailed));
    assert_eq!(l, refused);
    assert_eq!(s, refused);
}

#[test]
fn listener_refuses_wrong_key() {
    let k = new_key();
    let other = new_key();
    let (l, s) = listener_run(PermissionState::ReadWrite, &k, &other, Action::Get);
    let failed = format!("{:?}", ProtocolError::Authentication(AuthenticationError::AuthenticationFailed));
    assert_eq!(l, failed);
    assert_eq!(s, failed);
}

#[test]
fn signatures_and_challenges() {
    let k = new_key();
    let private = PrivateKey::from_pem(&k.private_key_to_pem().unwrap()).unwrap();
    let public = PublicKey::from_pem(&k.public_key_to_pem().unwrap()).unwrap();
    let der = PublicKey::from_der(&k.public_key_to_der().unwrap()).unwrap();
    let challenge = new_challenge().unwrap();
    assert_eq!(challenge.len(), CHALLENGE_LEN);
    let other = new_challenge().unwrap();
    assert_ne!(challenge, other);
    // A service answers a challenge with its signature.
    let (mut service, _) = quiver::connect::ServerConnection::new(
        "svc".to_owned(),
        private,
        PublicKey::from_pem(&k.public_key_to_pem().unwrap()).unwrap(),
        HandlerType::Calendar,
        Action::Get,
    );
    let out = service.receive(Message::Challenge(challenge.clone()));
    let sig = match &out[..] {
        [Message::Signature(sig)] => sig.clone(),
        other => panic!("{:?}", other),
    };
    assert_ne!(sig, challenge);
    assert_eq!(judge(&public, &challenge, &sig), Judgement::Accept);
    assert_eq!(judge(&der, &challenge, &sig), Judgement::Accept);
    assert_eq!(judge(&public, &other, &sig), Judgement::Reject);
    assert!(PublicKey::from_pem(b"garbage").is_none());
    assert!(PublicKey::from_der(b"garbage").is_none());
    assert!(PrivateKey::from_pem(b"garbage").is_none());
}

#[test]
fn public_keys_pair_with_their_private_keys() {
    let k = new_key();
    let other = new_key();
    let private = PrivateKey::from_pem(&k.private_key_to_pem().unwrap()).unwrap();
    let public = PublicKey::from_pem(&k.public_key_to_pem().unwrap()).unwrap();
    let der = PublicKey::from_der(&k.public_key_to_der().unwrap()).unwrap();
    let stranger = PublicKey::from_pem(&other.public_key_to_pem().unwrap()).unwrap();
    assert!(public.pairs_with(&private));
    assert!(der.pairs_with(&private));
    assert!(!stranger.pairs_with(&private));
}

#[test]
fn encrypted_private_keys_are_refused_without_a_prompt() {
    let k = new_key();
    let encrypted = k
        .private_key_to_pem_passphrase(openssl::symm::Cipher::aes_128_cbc(), b"secret")
        .unwrap();
    assert!(PrivateKey::from_pem(&encrypted).is_none());
    assert!(PrivateKey::from_pem(&k.private_key_to_pem().unwrap()).is_some());
}

#[test]
fn encrypted_private_keys_open_with_their_passphrase() {
    let k = new_key();
    let encrypted = k
        .private_key_to_pem_passphrase(openssl::symm::Cipher::aes_128_cbc(), b"secret")
        .unwrap();
    assert!(PrivateKey::from_pem_passphrase(&encrypted, b"wrong").is_none());
    let unlocked = PrivateKey::from_pem_passphrase(&encrypted, b"secret").unwrap();
    let public = PublicKey::from_pem(&k.public_key_to_pem().unwrap()).unwrap();
    assert!(public.pairs_with(&unlocked));
    // A passphrase is ignored for a key that is not encrypted.
    assert!(PrivateKey::from_pem_passphrase(&k.private_key_to_pem().unwrap(), b"anything").is_some());
}
