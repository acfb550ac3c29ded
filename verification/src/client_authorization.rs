//! The core's end of the handshake with a service that connects to it.

use vstd::prelude::*;
use crate::authorization::{authorize_request, decide, AuthorizationDecision};
use crate::crypto::{key_pair, public_key_pem_accepted, sign_sha256, signature_verdict, signed_by,
    KeyEncoding, PrivateKey, PublicKey};
use crate::error::{AuthenticationError, AuthorizationError, ProtocolError};
use crate::handshake::{copy_bytes, judge, judgement, kind_of, new_challenge, Identity, Judgement, Message,
    MessageKind, ServerOutput, ServiceRecord, CHALLENGE_LEN};
use crate::connect::{connect_receive, server_refusal, ConnectPhase};
use crate::shared::{Action, HandlerType, Permission};

verus! {

/// Where the core stands in the handshake with a service that connected to it.
pub enum ServerPhase {
    /// Waiting for the service's name.
    AwaitName,
    /// Waiting for the registry's answer on `name`.
    AwaitRecord { name: String },
    /// A challenge was sent; waiting for its signature.
    AwaitSignature { name: Ghost<Seq<char>>, permissions: Vec<Permission>, client_key: PublicKey, challenge: Vec<u8> },
    /// The service is identified; waiting for its challenge to the core.
    AwaitChallenge { permissions: Vec<Permission>, identity: Ghost<Identity> },
    /// The core signed the service's challenge; waiting for the service's verdict.
    AwaitVerdict { permissions: Vec<Permission>, identity: Ghost<Identity> },
    /// Both ends are identified; waiting for the interface.
    AwaitService { permissions: Vec<Permission>, identity: Ghost<Identity> },
    /// Waiting for the action on `service`.
    AwaitRequest { permissions: Vec<Permission>, service: HandlerType, identity: Ghost<Identity> },
    /// The request was granted.
    Authorized { service: HandlerType, action: Action, permissions: Ghost<Seq<Permission>>, identity: Ghost<Identity> },
    /// The handshake stopped.
    Failed { error: ProtocolError },
}

/// What holds of every phase that the core's handshake reaches.
pub open spec fn server_phase_wf(p: ServerPhase) -> bool {
    match p {
        ServerPhase::AwaitSignature { challenge, .. } => challenge@.len() == CHALLENGE_LEN,
        ServerPhase::AwaitChallenge { identity, .. } => identity@.proven(),
        ServerPhase::AwaitVerdict { identity, .. } => identity@.proven(),
        ServerPhase::AwaitService { identity, .. } => identity@.proven(),
        ServerPhase::AwaitRequest { identity, .. } => identity@.proven(),
        ServerPhase::Authorized { service, action, permissions, identity } => identity@.proven() && decide(
            permissions@,
            service,
            action,
        ) == AuthorizationDecision::Granted,
        _ => true,
    }
}

/// Whether the handshake is over.
pub open spec fn server_done(p: ServerPhase) -> bool {
    p is Authorized || p is Failed
}

/// The failure for a message that the protocol does not expect.
pub open spec fn server_unexpected(post: ServerPhase, out: ServerOutput) -> bool {
    post == (ServerPhase::Failed { error: ProtocolError::UnexpectedMessage }) && out is Nothing
}

/// What the core, holding the private key read from `key` (PEM text and passphrase),
/// does when `msg` arrives in phase `pre`: `post` is the next phase and `out` what it
/// does.
pub open spec fn server_receive(key: (Seq<u8>, Seq<u8>), pre: ServerPhase, msg: Message, post: ServerPhase, out: ServerOutput) -> bool {
    if server_done(pre) {
        post == pre && out is Nothing
    } else {
        match pre {
            ServerPhase::AwaitName => match msg {
                Message::Name(n) => post == (ServerPhase::AwaitRecord { name: n }) && out == ServerOutput::LookUp(n),
                _ => server_unexpected(post, out),
            },
            ServerPhase::AwaitSignature { name, permissions, client_key, challenge } => match msg {
                Message::Signature(sig) => match judgement(signature_verdict(client_key@, challenge@, sig@)) {
                    Judgement::Accept => {
                        &&& post matches ServerPhase::AwaitChallenge { permissions: p, identity }
                        &&& p == permissions
                        &&& identity@ == (Identity { name: name@, key: client_key@, challenge: challenge@, signature: sig@ })
                        &&& out == ServerOutput::Send(Message::Verdict(true))
                    },
                    Judgement::Reject => post == (ServerPhase::Failed {
                        error: ProtocolError::Authentication(AuthenticationError::AuthenticationFailed),
                    }) && out == ServerOutput::Send(Message::Verdict(false)),
                    Judgement::Broken => post == (ServerPhase::Failed { error: ProtocolError::Crypto }) && out is Nothing,
                },
                _ => server_unexpected(post, out),
            },
            ServerPhase::AwaitChallenge { permissions, identity } => match msg {
                Message::Challenge(c) => {
                    ||| {
                        &&& post == (ServerPhase::AwaitVerdict { permissions, identity })
                        &&& out matches ServerOutput::Send(Message::Signature(sig))
                        &&& signed_by(key, c@, sig@)
                    }
                    ||| post == (ServerPhase::Failed { error: ProtocolError::Crypto }) && out is Nothing
                },
                _ => server_unexpected(post, out),
            },
            ServerPhase::AwaitVerdict { permissions, identity } => match msg {
                Message::Verdict(true) => post == (ServerPhase::AwaitService { permissions, identity }) && out is Nothing,
                Message::Verdict(false) => post == (ServerPhase::Failed {
                    error: ProtocolError::Authentication(AuthenticationError::AuthenticationFailed),
                }) && out is Nothing,
                _ => server_unexpected(post, out),
            },
            ServerPhase::AwaitService { permissions, identity } => match msg {
                Message::Service(service) => post == (ServerPhase::AwaitRequest { permissions, service, identity })
                    && out is Nothing,
                _ => server_unexpected(post, out),
            },
            ServerPhase::AwaitRequest { permissions, service, identity } => match msg {
                Message::Request(action) => match decide(permissions@, service, action) {
                    AuthorizationDecision::Granted => {
                        &&& post matches ServerPhase::Authorized { service: s, action: a, permissions: p, identity: i }
                        &&& s == service && a == action && p@ == permissions@ && i == identity
                        &&& out == ServerOutput::Send(Message::Verdict(true))
                    },
                    AuthorizationDecision::Refused => post == (ServerPhase::Failed {
                        error: ProtocolError::Authorization(AuthorizationError::AuthorizationFailed),
                    }) && out == ServerOutput::Send(Message::Verdict(false)),
                    AuthorizationDecision::NoPermission => post == (ServerPhase::Failed {
                        error: ProtocolError::Authorization(AuthorizationError::AuthorizationFailed),
                    }) && out is Nothing,
                },
                _ => server_unexpected(post, out),
            },
            // Nothing but the registry's answer is expected while the core looks the name up.
            _ => server_unexpected(post, out),
        }
    }
}

/// What the core does when the registry answers `record` in phase `pre`.
pub open spec fn server_record(pre: ServerPhase, record: Option<ServiceRecord>, post: ServerPhase, out: ServerOutput) -> bool {
    if server_done(pre) {
        post == pre && out is Nothing
    } else {
        match pre {
            ServerPhase::AwaitRecord { name } => match record {
                None => post == (ServerPhase::Failed {
                    error: ProtocolError::Authentication(AuthenticationError::ServiceNotRegistered { name }),
                }) && out is Nothing,
                Some(r) => if !public_key_pem_accepted(r.public_key@) {
                    post == (ServerPhase::Failed { error: ProtocolError::InvalidKey }) && out is Nothing
                } else {
                    &&& post matches ServerPhase::AwaitSignature { name: n, permissions, client_key, challenge }
                    &&& n@ == name@ && permissions == r.permissions && client_key@ == (KeyEncoding::Pem, r.public_key@)
                    &&& challenge@.len() == CHALLENGE_LEN
                    &&& out matches ServerOutput::Send(Message::Challenge(c)) && c@ == challenge@
                },
            },
            _ => server_unexpected(post, out),
        }
    }
}

/// The core's end of the handshake with a service that connected to it: the service
/// names itself, proves it holds the registered key, checks the core's key in turn,
/// and asks for an action on an interface, which its permissions decide.
pub struct ClientAuthorization {
    phase: ServerPhase,
    key: PrivateKey,
}

impl ClientAuthorization {
    /// The kind of message that the core waits for; `None` when it waits for the
    /// registry or is done.
    pub fn expects(&self) -> (r: Option<MessageKind>)
        ensures
            r == server_expects(self.phase()),
    {
        match &self.phase {
            ServerPhase::AwaitName => Some(MessageKind::Name),
            ServerPhase::AwaitSignature { .. } => Some(MessageKind::Signature),
            ServerPhase::AwaitChallenge { .. } => Some(MessageKind::Challenge),
            ServerPhase::AwaitVerdict { .. } => Some(MessageKind::Verdict),
            ServerPhase::AwaitService { .. } => Some(MessageKind::Service),
            ServerPhase::AwaitRequest { .. } => Some(MessageKind::Request),
            _ => None,
        }
    }

    /// How the handshake ended: the granted interface and action, or the failure;
    /// `None` while it goes on.
    pub fn outcome(&self) -> (r: Option<Result<(HandlerType, Action), &ProtocolError>>)
        ensures
            match self.phase() {
                ServerPhase::Authorized { service, action, .. } => r == Some(
                    Ok::<(HandlerType, Action), &ProtocolError>((service, action)),
                ),
                ServerPhase::Failed { error } => r matches Some(Err(e)) && *e == error,
                _ => r is None,
            },
    {
        match &self.phase {
            ServerPhase::Authorized { service, action, .. } => Some(Ok((*service, *action))),
            ServerPhase::Failed { error } => Some(Err(error)),
            _ => None,
        }
    }

    /// The current phase.
    pub closed spec fn phase(&self) -> ServerPhase {
        self.phase
    }

    /// The PEM text of the core's private key, and its passphrase.
    pub closed spec fn key(&self) -> (Seq<u8>, Seq<u8>) {
        self.key@
    }

    /// A handshake that waits for the service's name; `key` is the core's private key.
    pub fn new(key: PrivateKey) -> (r: Self)
        ensures
            r.phase() == ServerPhase::AwaitName,
            r.key() == key@,
    {
        ClientAuthorization { phase: ServerPhase::AwaitName, key }
    }

    fn take_phase(&mut self) -> (p: ServerPhase)
        ensures
            p == old(self).phase,
            final(self).key == old(self).key,
            final(self).phase == (ServerPhase::Failed { error: ProtocolError::UnexpectedMessage }),
    {
        let mut p = ServerPhase::Failed { error: ProtocolError::UnexpectedMessage };
        std::mem::swap(&mut p, &mut self.phase);
        p
    }

    /// Handles a message from the service.
    pub fn receive(&mut self, msg: Message) -> (out: ServerOutput)
        requires
            server_phase_wf(old(self).phase()),
        ensures
            server_receive(old(self).key(), old(self).phase(), msg, final(self).phase(), out),
            final(self).key() == old(self).key(),
            server_phase_wf(final(self).phase()),
    {
        let phase = self.take_phase();
        match phase {
            ServerPhase::AwaitName => match msg {
                Message::Name(n) => {
                    let q = n.clone();
                    self.phase = ServerPhase::AwaitRecord { name: n };
                    ServerOutput::LookUp(q)
                },
                _ => ServerOutput::Nothing,
            },
            ServerPhase::AwaitSignature { name, permissions, client_key, challenge } => match msg {
                Message::Signature(sig) => match judge(&client_key, &challenge, &sig) {
                    Judgement::Accept => {
                        let identity = Ghost(Identity { name: name@, key: client_key@, challenge: challenge@, signature: sig@ });
                        self.phase = ServerPhase::AwaitChallenge { permissions, identity };
                        ServerOutput::Send(Message::Verdict(true))
                    },
                    Judgement::Reject => {
                        self.phase = ServerPhase::Failed {
                            error: ProtocolError::Authentication(AuthenticationError::AuthenticationFailed),
                        };
                        ServerOutput::Send(Message::Verdict(false))
                    },
                    Judgement::Broken => {
                        self.phase = ServerPhase::Failed { error: ProtocolError::Crypto };
                        ServerOutput::Nothing
                    },
                },
                _ => ServerOutput::Nothing,
            },
            ServerPhase::AwaitChallenge { permissions, identity } => match msg {
                Message::Challenge(c) => match sign_sha256(&self.key, c.as_slice()) {
                    Some(sig) => {
                        self.phase = ServerPhase::AwaitVerdict { permissions, identity };
                        ServerOutput::Send(Message::Signature(sig))
                    },
                    None => {
                        self.phase = ServerPhase::Failed { error: ProtocolError::Crypto };
                        ServerOutput::Nothing
                    },
                },
                _ => ServerOutput::Nothing,
            },
            ServerPhase::AwaitVerdict { permissions, identity } => match msg {
                Message::Verdict(true) => {
                    self.phase = ServerPhase::AwaitService { permissions, identity };
                    ServerOutput::Nothing
                },
                Message::Verdict(false) => {
                    self.phase = ServerPhase::Failed {
                        error: ProtocolError::Authentication(AuthenticationError::AuthenticationFailed),
                    };
                    ServerOutput::Nothing
                },
                _ => ServerOutput::Nothing,
            },
            ServerPhase::AwaitService { permissions, identity } => match msg {
                Message::Service(service) => {
                    self.phase = ServerPhase::AwaitRequest { permissions, service, identity };
                    ServerOutput::Nothing
                },
                _ => ServerOutput::Nothing,
            },
            ServerPhase::AwaitRequest { permissions, service, identity } => match msg {
                Message::Request(action) => match authorize_request(&permissions, service, action) {
                    AuthorizationDecision::Granted => {
                        self.phase = ServerPhase::Authorized {
                            service,
                            action,
                            permissions: Ghost(permissions@),
                            identity,
                        };
                        ServerOutput::Send(Message::Verdict(true))
                    },
                    AuthorizationDecision::Refused => {
                        self.phase = ServerPhase::Failed {
                            error: ProtocolError::Authorization(AuthorizationError::AuthorizationFailed),
                        };
                        ServerOutput::Send(Message::Verdict(false))
                    },
                    AuthorizationDecision::NoPermission => {
                        self.phase = ServerPhase::Failed {
                            error: ProtocolError::Authorization(AuthorizationError::AuthorizationFailed),
                        };
                        ServerOutput::Nothing
                    },
                },
                _ => ServerOutput::Nothing,
            },
            ServerPhase::Authorized { .. } | ServerPhase::Failed { .. } => {
                self.phase = phase;
                ServerOutput::Nothing
            },
            ServerPhase::AwaitRecord { .. } => ServerOutput::Nothing,
        }
    }

    /// Handles the registry's answer to the lookup of the service's name. openssl
    /// cannot read a key longer than a C `int` can count; such a key is not admitted.
    pub fn record(&mut self, record: Option<ServiceRecord>) -> (out: ServerOutput)
        requires
            server_phase_wf(old(self).phase()),
            record matches Some(r) ==> r.public_key@.len() <= i32::MAX,
        ensures
            server_record(old(self).phase(), record, final(self).phase(), out),
            final(self).key() == old(self).key(),
            server_phase_wf(final(self).phase()),
    {
        let phase = self.take_phase();
        match phase {
            ServerPhase::AwaitRecord { name } => match record {
                None => {
                    self.phase = ServerPhase::Failed {
                        error: ProtocolError::Authentication(AuthenticationError::ServiceNotRegistered { name }),
                    };
                    ServerOutput::Nothing
                },
                Some(r) => {
                    let ServiceRecord { permissions, public_key } = r;
                    match PublicKey::from_pem(public_key.as_slice()) {
                        None => {
                            self.phase = ServerPhase::Failed { error: ProtocolError::InvalidKey };
                            ServerOutput::Nothing
                        },
                        Some(client_key) => {
                            let challenge = new_challenge().unwrap();
                            let sent = copy_bytes(&challenge);
                            self.phase = ServerPhase::AwaitSignature {
                                name: Ghost(name@),
                                permissions,
                                client_key,
                                challenge,
                            };
                            ServerOutput::Send(Message::Challenge(sent))
                        },
                    }
                },
            },
            ServerPhase::Authorized { .. } | ServerPhase::Failed { .. } => {
                self.phase = phase;
                ServerOutput::Nothing
            },
            _ => ServerOutput::Nothing,
        }
    }
}

/// The order in which the core's handshake moves through its phases.
pub open spec fn server_rank(p: ServerPhase) -> nat {
    match p {
        ServerPhase::AwaitName => 0,
        ServerPhase::AwaitRecord { .. } => 1,
        ServerPhase::AwaitSignature { .. } => 2,
        ServerPhase::AwaitChallenge { .. } => 3,
        ServerPhase::AwaitVerdict { .. } => 4,
        ServerPhase::AwaitService { .. } => 5,
        ServerPhase::AwaitRequest { .. } => 6,
        ServerPhase::Authorized { .. } => 7,
        ServerPhase::Failed { .. } => 7,
    }
}

/// Every message and every registry answer either moves the core's handshake forward
/// by exactly one phase, in the protocol's order, or ends it, and a finished handshake
/// stays as it is: the handshake is over after at most seven steps.
pub proof fn lemma_server_progress(key: (Seq<u8>, Seq<u8>), pre: ServerPhase, msg: Message, record: Option<ServiceRecord>, post: ServerPhase, out: ServerOutput)
    ensures
        server_receive(key, pre, msg, post, out) ==> (server_done(pre) && post == pre) || server_rank(post) > server_rank(pre),
        server_record(pre, record, post, out) ==> (server_done(pre) && post == pre) || server_rank(post) > server_rank(pre),
        server_receive(key, pre, msg, post, out) && !server_done(pre) && !(post is Failed) ==> server_rank(post)
            == server_rank(pre) + 1,
        server_record(pre, record, post, out) && !server_done(pre) && !(post is Failed) ==> server_rank(post)
            == server_rank(pre) + 1,
{
}

/// A service is only ever authorized after it signed, with the key registered under
/// the name it gave, the challenge that the core drew for it, and after its
/// permissions granted the action on the interface it asked for.
pub proof fn lemma_authorized_service_was_proven(p: ServerPhase)
    requires
        server_phase_wf(p),
        p is Authorized,
    ensures
        match p {
            ServerPhase::Authorized { service, action, permissions, identity } => {
                &&& signature_verdict(identity@.key, identity@.challenge, identity@.signature) == Some(true)
                &&& decide(permissions@, service, action) == AuthorizationDecision::Granted
            },
            _ => false,
        },
{
}

/// The core tells a service `true` about its request exactly when the request is
/// granted, `false` when the governing permission refuses it, and nothing when no
/// permission names the interface.
pub proof fn lemma_request_answer(key: (Seq<u8>, Seq<u8>), permissions: Vec<Permission>, service: HandlerType, identity: Ghost<Identity>, action: Action, post: ServerPhase, out: ServerOutput)
    requires
        server_receive(key, ServerPhase::AwaitRequest { permissions, service, identity }, Message::Request(action), post, out),
    ensures
        out == ServerOutput::Send(Message::Verdict(true)) <==> decide(permissions@, service, action) == AuthorizationDecision::Granted,
        out == ServerOutput::Send(Message::Verdict(false)) <==> decide(permissions@, service, action) == AuthorizationDecision::Refused,
        out is Nothing <==> decide(permissions@, service, action) == AuthorizationDecision::NoPermission,
        post is Authorized <==> decide(permissions@, service, action) == AuthorizationDecision::Granted,
{
}

/// A request that the core answers is settled the same way at both ends: the service
/// connects exactly when the core granted the request, and when the core refuses it
/// both ends fail with the same authorization error.
pub proof fn lemma_both_ends_agree_on_request(
    key: (Seq<u8>, Seq<u8>),
    client_own_key: (Seq<u8>, Seq<u8>),
    permissions: Vec<Permission>,
    service: HandlerType,
    identity: Ghost<Identity>,
    action: Action,
    post: ServerPhase,
    answer: bool,
    server_key: (KeyEncoding, Seq<u8>),
    proof: Ghost<(Seq<u8>, Seq<u8>)>,
    client_post: ConnectPhase,
    client_out: Seq<Message>,
)
    requires
        server_receive(
            key,
            ServerPhase::AwaitRequest { permissions, service, identity },
            Message::Request(action),
            post,
            ServerOutput::Send(Message::Verdict(answer)),
        ),
        connect_receive(
            client_own_key,
            server_key,
            service,
            action,
            server_refusal(),
            ConnectPhase::AwaitAcceptance { proof },
            Message::Verdict(answer),
            client_post,
            client_out,
        ),
    ensures
        client_post is Connected <==> post is Authorized,
        client_post is Connected <==> decide(permissions@, service, action) == AuthorizationDecision::Granted,
        !answer ==> post == (ServerPhase::Failed {
            error: ProtocolError::Authorization(AuthorizationError::AuthorizationFailed),
        }) && client_post == (ConnectPhase::Failed {
            error: ProtocolError::Authorization(AuthorizationError::AuthorizationFailed),
        }),
{
}

/// A service that holds the private key whose public half is registered under its
/// name, and that trusts the core's real key, gets through the handshake with the
/// core: the core authorizes exactly the interface and action that the service asked
/// for when its permissions grant them, tells it so, and the service is connected; a
/// refused request fails at both ends, and a request on an interface that no
/// permission names is left unanswered. Signing may fail inside openssl, so the run
/// considered is one in which neither end failed to sign.
pub proof fn lemma_registered_service_gets_through(
    core_key: (Seq<u8>, Seq<u8>),
    service_key: (Seq<u8>, Seq<u8>),
    trusted_core_key: (KeyEncoding, Seq<u8>),
    name: String,
    record: ServiceRecord,
    service: HandlerType,
    action: Action,
    c1: ServerPhase,
    o1: ServerOutput,
    c2: ServerPhase,
    o2: ServerOutput,
    s1: ConnectPhase,
    so1: Seq<Message>,
    c3: ServerPhase,
    o3: ServerOutput,
    s2: ConnectPhase,
    so2: Seq<Message>,
    c4: ServerPhase,
    o4: ServerOutput,
    s3: ConnectPhase,
    so3: Seq<Message>,
    c5: ServerPhase,
    o5: ServerOutput,
    c6: ServerPhase,
    o6: ServerOutput,
    c7: ServerPhase,
    o7: ServerOutput,
    s4: ConnectPhase,
    so4: Seq<Message>,
)
    requires
        key_pair((KeyEncoding::Pem, record.public_key@), service_key),
        key_pair(trusted_core_key, core_key),
        public_key_pem_accepted(record.public_key@),
        server_receive(core_key, ServerPhase::AwaitName, Message::Name(name), c1, o1),
        server_record(c1, Some(record), c2, o2),
        connect_receive(service_key, trusted_core_key, service, action, server_refusal(),
            ConnectPhase::AwaitChallenge, o2->Send_0, s1, so1),
        s1 != (ConnectPhase::Failed { error: ProtocolError::Crypto }),
        server_receive(core_key, c2, so1[0], c3, o3),
        connect_receive(service_key, trusted_core_key, service, action, server_refusal(), s1, o3->Send_0, s2, so2),
        server_receive(core_key, c3, so2[0], c4, o4),
        c4 != (ServerPhase::Failed { error: ProtocolError::Crypto }),
        connect_receive(service_key, trusted_core_key, service, action, server_refusal(), s2, o4->Send_0, s3, so3),
        server_receive(core_key, c4, so3[0], c5, o5),
        server_receive(core_key, c5, so3[1], c6, o6),
        server_receive(core_key, c6, so3[2], c7, o7),
        connect_receive(service_key, trusted_core_key, service, action, server_refusal(), s3, o7->Send_0, s4, so4),
    ensures
        o1 == ServerOutput::LookUp(name),
        o2 matches ServerOutput::Send(m) && m is Challenge,
        so1.len() == 1 && so1[0] is Signature,
        o3 == ServerOutput::Send(Message::Verdict(true)),
        so2.len() == 1 && so2[0] is Challenge,
        o4 matches ServerOutput::Send(m) && m is Signature,
        so3 == seq![Message::Verdict(true), Message::Service(service), Message::Request(action)],
        o5 is Nothing && o6 is Nothing,
        c7 is Authorized <==> decide(record.permissions@, service, action) == AuthorizationDecision::Granted,
        c7 matches ServerPhase::Authorized { service: s, action: a, .. } ==> s == service && a == action,
        o7 is Nothing <==> decide(record.permissions@, service, action) == AuthorizationDecision::NoPermission,
        o7 is Send ==> (s4 is Connected <==> c7 is Authorized),
        o7 is Send && !(c7 is Authorized) ==> s4 == (ConnectPhase::Failed { error: server_refusal() }),
{
    // The core's challenge reaches the service, whose signature the core accepts.
    if let ServerPhase::AwaitSignature { client_key, challenge, .. } = c2 {
        let sig1 = so1[0]->Signature_0;
        assert(signed_by(service_key, challenge@, sig1@));
        assert(signature_verdict(client_key@, challenge@, sig1@) == Some(true));
    }
    // The service's challenge reaches the core, whose signature the service accepts.
    if let ConnectPhase::AwaitSignature { challenge } = s2 {
        let sig2 = o4->Send_0->Signature_0;
        assert(signed_by(core_key, challenge@, sig2@));
        assert(signature_verdict(trusted_core_key, challenge@, sig2@) == Some(true));
    }
}

/// The kind of message that the core waits for in phase `p`; `None` when it waits for
/// the registry or is done.
pub open spec fn server_expects(p: ServerPhase) -> Option<MessageKind> {
    match p {
        ServerPhase::AwaitName => Some(MessageKind::Name),
        ServerPhase::AwaitSignature { .. } => Some(MessageKind::Signature),
        ServerPhase::AwaitChallenge { .. } => Some(MessageKind::Challenge),
        ServerPhase::AwaitVerdict { .. } => Some(MessageKind::Verdict),
        ServerPhase::AwaitService { .. } => Some(MessageKind::Service),
        ServerPhase::AwaitRequest { .. } => Some(MessageKind::Request),
        _ => None,
    }
}

/// A message of the kind that the core waits for never fails the handshake as
/// unexpected.
pub proof fn lemma_server_expected_messages_handled(key: (Seq<u8>, Seq<u8>), pre: ServerPhase, msg: Message, post: ServerPhase, out: ServerOutput)
    requires
        server_receive(key, pre, msg, post, out),
        server_expects(pre) == Some(kind_of(msg)),
    ensures
        post != (ServerPhase::Failed { error: ProtocolError::UnexpectedMessage }),
{
}

/// A `false` verdict never lets the core's handshake go on: in any phase that is not
/// done, it ends the handshake as failed and sends nothing; and when the core waits for
/// the service's verdict on its own signature, the failure is an authentication
/// failure.
pub proof fn lemma_false_verdict_ends_core_handshake(key: (Seq<u8>, Seq<u8>), pre: ServerPhase, post: ServerPhase, out: ServerOutput)
    requires
        server_receive(key, pre, Message::Verdict(false), post, out),
        !(pre is Authorized || pre is Failed),
    ensures
        post is Failed,
        out is Nothing,
        pre is AwaitVerdict ==> post == (ServerPhase::Failed {
            error: ProtocolError::Authentication(AuthenticationError::AuthenticationFailed),
        }),
{
}

/// The core waits for a message in every phase but while the registry is consulted
/// and once it is done; and the kind it waits for is exactly the kind that it does not
/// reject as unexpected.
pub proof fn lemma_core_waits_exactly_for_what_it_handles(key: (Seq<u8>, Seq<u8>), pre: ServerPhase, msg: Message, post: ServerPhase, out: ServerOutput)
    ensures
        server_expects(pre) is None <==> (pre is AwaitRecord || pre is Authorized || pre is Failed),
        server_receive(key, pre, msg, post, out) && !(pre is AwaitRecord || pre is Authorized || pre is Failed) ==> (
        post == (ServerPhase::Failed { error: ProtocolError::UnexpectedMessage }) <==> server_expects(pre) != Some(
            kind_of(msg),
        )),
{
}

} // verus!
