//! The one-way handshake of the threaded listeners: a service connecting to the
//! listener of one interface proves who it is and asks for an action; the listener
//! does not prove itself in turn.

use vstd::prelude::*;
use crate::authorization::{authorize_request, decide, AuthorizationDecision};
use crate::crypto::{key_pair, public_key_der_accepted, sign_sha256, signature_verdict, signed_by,
    KeyEncoding, PrivateKey, PublicKey};
use crate::error::{AuthenticationError, AuthorizationError, ProtocolError};
use crate::handshake::{copy_bytes, judge, judgement, kind_of, new_challenge, Identity, Judgement, Message,
    MessageKind, ServerOutput, ServiceRecord, CHALLENGE_LEN};
use crate::shared::{Action, HandlerType, Permission};

verus! {

/// Where a listener stands in the handshake with a service that connected to it.
pub enum ListenerPhase {
    /// Waiting for the service's name.
    AwaitName,
    /// Waiting for the registry's answer on `name`.
    AwaitRecord { name: String },
    /// A challenge was sent; waiting for its signature.
    AwaitSignature { name: Ghost<Seq<char>>, permissions: Vec<Permission>, client_key: PublicKey, challenge: Vec<u8> },
    /// The service is identified; waiting for its action.
    AwaitRequest { permissions: Vec<Permission>, identity: Ghost<Identity> },
    /// The action was granted.
    Authorized { action: Action, permissions: Ghost<Seq<Permission>>, identity: Ghost<Identity> },
    /// The handshake stopped.
    Failed { error: ProtocolError },
}

/// Whether the listener's handshake is over.
pub open spec fn listener_done(p: ListenerPhase) -> bool {
    p is Authorized || p is Failed
}

/// What holds of every phase of the handshake of the listener of `handler`.
pub open spec fn listener_phase_wf(p: ListenerPhase, handler: HandlerType) -> bool {
    match p {
        ListenerPhase::AwaitSignature { challenge, .. } => challenge@.len() == CHALLENGE_LEN,
        ListenerPhase::AwaitRequest { identity, .. } => identity@.proven(),
        ListenerPhase::Authorized { action, permissions, identity } => identity@.proven() && decide(
            permissions@,
            handler,
            action,
        ) == AuthorizationDecision::Granted,
        _ => true,
    }
}

/// What the listener of `handler` does when `msg` arrives in phase `pre`.
pub open spec fn listener_receive(handler: HandlerType, pre: ListenerPhase, msg: Message, post: ListenerPhase, out: ServerOutput) -> bool {
    if listener_done(pre) {
        post == pre && out is Nothing
    } else {
        let unexpected = post == (ListenerPhase::Failed { error: ProtocolError::UnexpectedMessage }) && out is Nothing;
        match pre {
            ListenerPhase::AwaitName => match msg {
                Message::Name(n) => post == (ListenerPhase::AwaitRecord { name: n }) && out == ServerOutput::LookUp(n),
                _ => unexpected,
            },
            ListenerPhase::AwaitSignature { name, permissions, client_key, challenge } => match msg {
                Message::Signature(sig) => match judgement(signature_verdict(client_key@, challenge@, sig@)) {
                    Judgement::Accept => {
                        &&& post matches ListenerPhase::AwaitRequest { permissions: p, identity }
                        &&& p == permissions
                        &&& identity@ == (Identity { name: name@, key: client_key@, challenge: challenge@, signature: sig@ })
                        &&& out == ServerOutput::Send(Message::Verdict(true))
                    },
                    Judgement::Reject => post == (ListenerPhase::Failed {
                        error: ProtocolError::Authentication(AuthenticationError::AuthenticationFailed),
                    }) && out == ServerOutput::Send(Message::Verdict(false)),
                    Judgement::Broken => post == (ListenerPhase::Failed { error: ProtocolError::Crypto }) && out is Nothing,
                },
                _ => unexpected,
            },
            ListenerPhase::AwaitRequest { permissions, identity } => match msg {
                Message::Request(action) => match decide(permissions@, handler, action) {
                    AuthorizationDecision::Granted => {
                        &&& post matches ListenerPhase::Authorized { action: a, permissions: p, identity: i }
                        &&& a == action && p@ == permissions@ && i == identity
                        &&& out == ServerOutput::Send(Message::Verdict(true))
                    },
                    AuthorizationDecision::Refused => post == (ListenerPhase::Failed {
                        error: ProtocolError::Authorization(AuthorizationError::AuthorizationFailed),
                    }) && out == ServerOutput::Send(Message::Verdict(false)),
                    AuthorizationDecision::NoPermission => post == (ListenerPhase::Failed {
                        error: ProtocolError::Authorization(AuthorizationError::AuthorizationFailed),
                    }) && out is Nothing,
                },
                _ => unexpected,
            },
            _ => unexpected,
        }
    }
}

/// What the listener does when the registry answers `record` in phase `pre`; the
/// registered key is DER encoded here.
pub open spec fn listener_record(pre: ListenerPhase, record: Option<ServiceRecord>, post: ListenerPhase, out: ServerOutput) -> bool {
    if listener_done(pre) {
        post == pre && out is Nothing
    } else {
        match pre {
            ListenerPhase::AwaitRecord { name } => match record {
                None => post == (ListenerPhase::Failed {
                    error: ProtocolError::Authentication(AuthenticationError::ServiceNotRegistered { name }),
                }) && out is Nothing,
                Some(r) => if !public_key_der_accepted(r.public_key@) {
                    post == (ListenerPhase::Failed { error: ProtocolError::InvalidKey }) && out is Nothing
                } else {
                    &&& post matches ListenerPhase::AwaitSignature { name: n, permissions, client_key, challenge }
                    &&& n@ == name@ && permissions == r.permissions && client_key@ == (KeyEncoding::Der, r.public_key@)
                    &&& challenge@.len() == CHALLENGE_LEN
                    &&& out matches ServerOutput::Send(Message::Challenge(c)) && c@ == challenge@
                },
            },
            _ => post == (ListenerPhase::Failed { error: ProtocolError::UnexpectedMessage }) && out is Nothing,
        }
    }
}

/// The listener of one interface, in its handshake with a service that connected to
/// it: the service names itself, proves it holds the registered key, and asks for an
/// action on the listener's interface, which its permissions decide.
pub struct ListenerAuthorization {
    phase: ListenerPhase,
    handler: HandlerType,
}

impl ListenerAuthorization {
    /// The kind of message that the listener waits for; `None` when it waits for the
    /// registry or is done.
    pub fn expects(&self) -> (r: Option<MessageKind>)
        ensures
            r == listener_expects(self.phase()),
    {
        match &self.phase {
            ListenerPhase::AwaitName => Some(MessageKind::Name),
            ListenerPhase::AwaitSignature { .. } => Some(MessageKind::Signature),
            ListenerPhase::AwaitRequest { .. } => Some(MessageKind::Request),
            _ => None,
        }
    }

    /// How the handshake ended: the granted action, or the failure; `None` while it
    /// goes on.
    pub fn outcome(&self) -> (r: Option<Result<Action, &ProtocolError>>)
        ensures
            match self.phase() {
                ListenerPhase::Authorized { action, .. } => r == Some(Ok::<Action, &ProtocolError>(action)),
                ListenerPhase::Failed { error } => r matches Some(Err(e)) && *e == error,
                _ => r is None,
            },
    {
        match &self.phase {
            ListenerPhase::Authorized { action, .. } => Some(Ok(*action)),
            ListenerPhase::Failed { error } => Some(Err(error)),
            _ => None,
        }
    }

    /// The current phase.
    pub closed spec fn phase(&self) -> ListenerPhase {
        self.phase
    }

    /// The interface that the listener serves.
    pub closed spec fn handler(&self) -> HandlerType {
        self.handler
    }

    /// Whether the state is one that the handshake reaches.
    pub open spec fn well_formed(&self) -> bool {
        listener_phase_wf(self.phase(), self.handler())
    }

    /// A handshake of the listener of `handler`, waiting for the service's name.
    pub fn new(handler: HandlerType) -> (r: Self)
        ensures
            r.phase() == ListenerPhase::AwaitName,
            r.handler() == handler,
            r.well_formed(),
    {
        ListenerAuthorization { phase: ListenerPhase::AwaitName, handler }
    }

    fn take_phase(&mut self) -> (p: ListenerPhase)
        ensures
            p == old(self).phase,
            final(self).handler == old(self).handler,
            final(self).phase == (ListenerPhase::Failed { error: ProtocolError::UnexpectedMessage }),
    {
        let mut p = ListenerPhase::Failed { error: ProtocolError::UnexpectedMessage };
        std::mem::swap(&mut p, &mut self.phase);
        p
    }

    /// Handles a message from the service.
    pub fn receive(&mut self, msg: Message) -> (out: ServerOutput)
        requires
            old(self).well_formed(),
        ensures
            listener_receive(old(self).handler(), old(self).phase(), msg, final(self).phase(), out),
            final(self).handler() == old(self).handler(),
            final(self).well_formed(),
    {
        let phase = self.take_phase();
        match phase {
            ListenerPhase::AwaitName => match msg {
                Message::Name(n) => {
                    let q = n.clone();
                    self.phase = ListenerPhase::AwaitRecord { name: n };
                    ServerOutput::LookUp(q)
                },
                _ => ServerOutput::Nothing,
            },
            ListenerPhase::AwaitSignature { name, permissions, client_key, challenge } => match msg {
                Message::Signature(sig) => match judge(&client_key, &challenge, &sig) {
                    Judgement::Accept => {
                        let identity = Ghost(Identity { name: name@, key: client_key@, challenge: challenge@, signature: sig@ });
                        self.phase = ListenerPhase::AwaitRequest { permissions, identity };
                        ServerOutput::Send(Message::Verdict(true))
                    },
                    Judgement::Reject => {
                        self.phase = ListenerPhase::Failed {
                            error: ProtocolError::Authentication(AuthenticationError::AuthenticationFailed),
                        };
                        ServerOutput::Send(Message::Verdict(false))
                    },
                    Judgement::Broken => {
                        self.phase = ListenerPhase::Failed { error: ProtocolError::Crypto };
                        ServerOutput::Nothing
                    },
                },
                _ => ServerOutput::Nothing,
            },
            ListenerPhase::AwaitRequest { permissions, identity } => match msg {
                Message::Request(action) => match authorize_request(&permissions, self.handler, action) {
                    AuthorizationDecision::Granted => {
                        self.phase = ListenerPhase::Authorized { action, permissions: Ghost(permissions@), identity };
                        ServerOutput::Send(Message::Verdict(true))
                    },
                    AuthorizationDecision::Refused => {
                        self.phase = ListenerPhase::Failed {
                            error: ProtocolError::Authorization(AuthorizationError::AuthorizationFailed),
                        };
                        ServerOutput::Send(Message::Verdict(false))
                    },
                    AuthorizationDecision::NoPermission => {
                        self.phase = ListenerPhase::Failed {
                            error: ProtocolError::Authorization(AuthorizationError::AuthorizationFailed),
                        };
                        ServerOutput::Nothing
                    },
                },
                _ => ServerOutput::Nothing,
            },
            ListenerPhase::Authorized { .. } | ListenerPhase::Failed { .. } => {
                self.phase = phase;
                ServerOutput::Nothing
            },
            ListenerPhase::AwaitRecord { .. } => ServerOutput::Nothing,
        }
    }

    /// Handles the registry's answer to the lookup of the service's name.
    pub fn record(&mut self, record: Option<ServiceRecord>) -> (out: ServerOutput)
        requires
            old(self).well_formed(),
        ensures
            listener_record(old(self).phase(), record, final(self).phase(), out),
            final(self).handler() == old(self).handler(),
            final(self).well_formed(),
    {
        let phase = self.take_phase();
        match phase {
            ListenerPhase::AwaitRecord { name } => match record {
                None => {
                    self.phase = ListenerPhase::Failed {
                        error: ProtocolError::Authentication(AuthenticationError::ServiceNotRegistered { name }),
                    };
                    ServerOutput::Nothing
                },
                Some(r) => {
                    let ServiceRecord { permissions, public_key } = r;
                    match PublicKey::from_der(public_key.as_slice()) {
                        None => {
                            self.phase = ListenerPhase::Failed { error: ProtocolError::InvalidKey };
                            ServerOutput::Nothing
                        },
                        Some(client_key) => {
                            let challenge = new_challenge().unwrap();
                            let sent = copy_bytes(&challenge);
                            self.phase = ListenerPhase::AwaitSignature {
                                name: Ghost(name@),
                                permissions,
                                client_key,
                                challenge,
                            };
                            ServerOutput::Send(Message::Challenge(sent))
                        },
                    }
                },
            },
            ListenerPhase::Authorized { .. } | ListenerPhase::Failed { .. } => {
                self.phase = phase;
                ServerOutput::Nothing
            },
            _ => ServerOutput::Nothing,
        }
    }
}

/// A service is only ever authorized by a listener after it signed, with the key
/// registered under the name it gave, the challenge that the listener drew, and after
/// its permissions granted the action on the listener's interface.
pub proof fn lemma_listener_authorized_service_was_proven(p: ListenerPhase, handler: HandlerType)
    requires
        listener_phase_wf(p, handler),
        p is Authorized,
    ensures
        match p {
            ListenerPhase::Authorized { action, permissions, identity } => {
                &&& signature_verdict(identity@.key, identity@.challenge, identity@.signature) == Some(true)
                &&& decide(permissions@, handler, action) == AuthorizationDecision::Granted
            },
            _ => false,
        },
{
}

/// A service that holds the private key whose public half is registered (DER encoded)
/// under its name gets through the one-way handshake with the listener of `handler`:
/// the listener authorizes exactly the action that the service asked for when its
/// permissions grant it on that interface, and the service is then connected; a
/// refused request fails at both ends, and a request that no permission covers is left
/// unanswered. Signing may fail inside openssl, so the run considered is one in which
/// the service did not fail to sign.
pub proof fn lemma_registered_service_gets_through_listener(
    handler: HandlerType,
    service_key: (Seq<u8>, Seq<u8>),
    name: String,
    record: ServiceRecord,
    action: Action,
    l1: ListenerPhase,
    lo1: ServerOutput,
    l2: ListenerPhase,
    lo2: ServerOutput,
    i1: IdentifyPhase,
    io1: Seq<Message>,
    l3: ListenerPhase,
    lo3: ServerOutput,
    i2: IdentifyPhase,
    io2: Seq<Message>,
    l4: ListenerPhase,
    lo4: ServerOutput,
    i3: IdentifyPhase,
    io3: Seq<Message>,
)
    requires
        key_pair((KeyEncoding::Der, record.public_key@), service_key),
        public_key_der_accepted(record.public_key@),
        listener_receive(handler, ListenerPhase::AwaitName, Message::Name(name), l1, lo1),
        listener_record(l1, Some(record), l2, lo2),
        identify_receive(service_key, action, IdentifyPhase::AwaitChallenge, lo2->Send_0, i1, io1),
        i1 != (IdentifyPhase::Failed { error: ProtocolError::Crypto }),
        listener_receive(handler, l2, io1[0], l3, lo3),
        identify_receive(service_key, action, i1, lo3->Send_0, i2, io2),
        listener_receive(handler, l3, io2[0], l4, lo4),
        identify_receive(service_key, action, i2, lo4->Send_0, i3, io3),
    ensures
        lo1 == ServerOutput::LookUp(name),
        lo2 matches ServerOutput::Send(m) && m is Challenge,
        io1.len() == 1 && io1[0] is Signature,
        lo3 == ServerOutput::Send(Message::Verdict(true)),
        io2 == seq![Message::Request(action)],
        l4 is Authorized <==> decide(record.permissions@, handler, action) == AuthorizationDecision::Granted,
        l4 matches ListenerPhase::Authorized { action: a, .. } ==> a == action,
        lo4 is Nothing <==> decide(record.permissions@, handler, action) == AuthorizationDecision::NoPermission,
        lo4 is Send ==> (i3 is Connected <==> l4 is Authorized),
{
    if let ListenerPhase::AwaitSignature { client_key, challenge, .. } = l2 {
        let sig = io1[0]->Signature_0;
        assert(signed_by(service_key, challenge@, sig@));
        assert(signature_verdict(client_key@, challenge@, sig@) == Some(true));
    }
}

/// Where a service stands in the one-way handshake with a listener.
#[derive(Debug)]
pub enum IdentifyPhase {
    /// The name was sent; waiting for the listener's challenge.
    AwaitChallenge,
    /// The challenge was signed; waiting for the listener's verdict.
    AwaitVerdict,
    /// The action was sent; waiting for the listener's decision.
    AwaitAuthorization,
    /// The action was granted.
    Connected,
    /// The handshake stopped.
    Failed { error: ProtocolError },
}

/// Whether the service's one-way handshake is over.
pub open spec fn identify_done(p: IdentifyPhase) -> bool {
    p is Connected || p is Failed
}

/// What a service, holding the private key read from `own_key` (PEM text and
/// passphrase) and asking for `action`, does when `msg` arrives in phase `pre`.
pub open spec fn identify_receive(own_key: (Seq<u8>, Seq<u8>), action: Action, pre: IdentifyPhase, msg: Message, post: IdentifyPhase, out: Seq<Message>) -> bool {
    if identify_done(pre) {
        post == pre && out.len() == 0
    } else {
        let unexpected = post == (IdentifyPhase::Failed { error: ProtocolError::UnexpectedMessage }) && out.len() == 0;
        match pre {
            IdentifyPhase::AwaitChallenge => match msg {
                Message::Challenge(c) => {
                    ||| {
                        &&& post == IdentifyPhase::AwaitVerdict
                        &&& out.len() == 1
                        &&& out[0] matches Message::Signature(sig)
                        &&& signed_by(own_key, c@, sig@)
                    }
                    ||| post == (IdentifyPhase::Failed { error: ProtocolError::Crypto }) && out.len() == 0
                },
                _ => unexpected,
            },
            IdentifyPhase::AwaitVerdict => match msg {
                Message::Verdict(true) => post == IdentifyPhase::AwaitAuthorization && out == seq![Message::Request(action)],
                Message::Verdict(false) => post == (IdentifyPhase::Failed {
                    error: ProtocolError::Authentication(AuthenticationError::AuthenticationFailed),
                }) && out.len() == 0,
                _ => unexpected,
            },
            IdentifyPhase::AwaitAuthorization => match msg {
                Message::Verdict(true) => post == IdentifyPhase::Connected && out.len() == 0,
                Message::Verdict(false) => post == (IdentifyPhase::Failed {
                    error: ProtocolError::Authorization(AuthorizationError::AuthorizationFailed),
                }) && out.len() == 0,
                _ => unexpected,
            },
            _ => unexpected,
        }
    }
}

/// A service's end of the one-way handshake with a listener: it names itself, signs
/// the listener's challenge, and asks for `action`.
pub struct ListenerConnection {
    phase: IdentifyPhase,
    key: PrivateKey,
    action: Action,
}

impl ListenerConnection {
    /// The kind of message that the service waits for; `None` when it is done.
    pub fn expects(&self) -> (r: Option<MessageKind>)
        ensures
            r == identify_expects(self.phase()),
    {
        match &self.phase {
            IdentifyPhase::AwaitChallenge => Some(MessageKind::Challenge),
            IdentifyPhase::AwaitVerdict => Some(MessageKind::Verdict),
            IdentifyPhase::AwaitAuthorization => Some(MessageKind::Verdict),
            _ => None,
        }
    }

    /// How the handshake ended: connected, or the failure; `None` while it goes on.
    pub fn outcome(&self) -> (r: Option<Result<(), &ProtocolError>>)
        ensures
            match self.phase() {
                IdentifyPhase::Connected => r == Some(Ok::<(), &ProtocolError>(())),
                IdentifyPhase::Failed { error } => r matches Some(Err(e)) && *e == error,
                _ => r is None,
            },
    {
        match &self.phase {
            IdentifyPhase::Connected => Some(Ok(())),
            IdentifyPhase::Failed { error } => Some(Err(error)),
            _ => None,
        }
    }

    /// The current phase.
    pub closed spec fn phase(&self) -> IdentifyPhase {
        self.phase
    }

    /// The action asked for.
    pub closed spec fn action(&self) -> Action {
        self.action
    }

    /// The PEM text of the service's private key, and its passphrase.
    pub closed spec fn key(&self) -> (Seq<u8>, Seq<u8>) {
        self.key@
    }

    /// Opens the handshake of the service `name`, which holds `key`, for `action`; the
    /// returned message goes first.
    pub fn new(name: String, key: PrivateKey, action: Action) -> (r: (Self, Message))
        ensures
            r.0.phase() == IdentifyPhase::AwaitChallenge,
            r.0.action() == action,
            r.0.key() == key@,
            r.1 == Message::Name(name),
    {
        let first = Message::Name(name);
        (ListenerConnection { phase: IdentifyPhase::AwaitChallenge, key, action }, first)
    }

    /// Handles a message from the listener; returns the messages to send, in order.
    pub fn receive(&mut self, msg: Message) -> (out: Vec<Message>)
        ensures
            identify_receive(old(self).key(), old(self).action(), old(self).phase(), msg, final(self).phase(), out@),
            final(self).action() == old(self).action(),
            final(self).key() == old(self).key(),
    {
        let mut phase = IdentifyPhase::Failed { error: ProtocolError::UnexpectedMessage };
        std::mem::swap(&mut phase, &mut self.phase);
        let mut out: Vec<Message> = Vec::new();
        let unexpected = IdentifyPhase::Failed { error: ProtocolError::UnexpectedMessage };
        let next = match phase {
            IdentifyPhase::AwaitChallenge => match msg {
                Message::Challenge(c) => match sign_sha256(&self.key, c.as_slice()) {
                    Some(sig) => {
                        out.push(Message::Signature(sig));
                        IdentifyPhase::AwaitVerdict
                    },
                    None => IdentifyPhase::Failed { error: ProtocolError::Crypto },
                },
                _ => unexpected,
            },
            IdentifyPhase::AwaitVerdict => match msg {
                Message::Verdict(true) => {
                    out.push(Message::Request(self.action));
                    IdentifyPhase::AwaitAuthorization
                },
                Message::Verdict(false) => IdentifyPhase::Failed {
                    error: ProtocolError::Authentication(AuthenticationError::AuthenticationFailed),
                },
                _ => unexpected,
            },
            IdentifyPhase::AwaitAuthorization => match msg {
                Message::Verdict(true) => IdentifyPhase::Connected,
                Message::Verdict(false) => IdentifyPhase::Failed {
                    error: ProtocolError::Authorization(AuthorizationError::AuthorizationFailed),
                },
                _ => unexpected,
            },
            IdentifyPhase::Connected | IdentifyPhase::Failed { .. } => phase,
        };
        self.phase = next;
        proof {
            if out@.len() == 1 {
                assert(out@ =~= seq![out@[0]]);
            }
        }
        out
    }
}

/// The kind of message that a listener waits for in phase `p`; `None` when it waits
/// for the registry or is done.
pub open spec fn listener_expects(p: ListenerPhase) -> Option<MessageKind> {
    match p {
        ListenerPhase::AwaitName => Some(MessageKind::Name),
        ListenerPhase::AwaitSignature { .. } => Some(MessageKind::Signature),
        ListenerPhase::AwaitRequest { .. } => Some(MessageKind::Request),
        _ => None,
    }
}

/// The kind of message that a service in the one-way handshake waits for in phase
/// `p`; `None` when it is done.
pub open spec fn identify_expects(p: IdentifyPhase) -> Option<MessageKind> {
    match p {
        IdentifyPhase::AwaitChallenge => Some(MessageKind::Challenge),
        IdentifyPhase::AwaitVerdict => Some(MessageKind::Verdict),
        IdentifyPhase::AwaitAuthorization => Some(MessageKind::Verdict),
        _ => None,
    }
}

/// A message of the kind that either end of the one-way handshake waits for never
/// fails it as unexpected.
pub proof fn lemma_one_way_expected_messages_handled(
    handler: HandlerType,
    own_key: (Seq<u8>, Seq<u8>),
    action: Action,
    pre: ListenerPhase,
    msg: Message,
    post: ListenerPhase,
    out: ServerOutput,
    ipre: IdentifyPhase,
    imsg: Message,
    ipost: IdentifyPhase,
    iout: Seq<Message>,
)
    ensures
        listener_receive(handler, pre, msg, post, out) && listener_expects(pre) == Some(kind_of(msg)) ==> post != (
        ListenerPhase::Failed { error: ProtocolError::UnexpectedMessage }),
        identify_receive(own_key, action, ipre, imsg, ipost, iout) && identify_expects(ipre) == Some(kind_of(imsg)) ==> ipost
            != (IdentifyPhase::Failed { error: ProtocolError::UnexpectedMessage }),
{
}

/// The order in which the listener's handshake moves through its phases.
pub open spec fn listener_rank(p: ListenerPhase) -> nat {
    match p {
        ListenerPhase::AwaitName => 0,
        ListenerPhase::AwaitRecord { .. } => 1,
        ListenerPhase::AwaitSignature { .. } => 2,
        ListenerPhase::AwaitRequest { .. } => 3,
        ListenerPhase::Authorized { .. } => 4,
        ListenerPhase::Failed { .. } => 4,
    }
}

/// The order in which a service's one-way handshake moves through its phases.
pub open spec fn identify_rank(p: IdentifyPhase) -> nat {
    match p {
        IdentifyPhase::AwaitChallenge => 0,
        IdentifyPhase::AwaitVerdict => 1,
        IdentifyPhase::AwaitAuthorization => 2,
        IdentifyPhase::Connected => 3,
        IdentifyPhase::Failed { .. } => 3,
    }
}

/// Every message and every registry answer either moves the listener's handshake
/// forward by exactly one phase, in the protocol's order, or ends it, and a finished
/// handshake stays as it is; in particular a request
/// that no permission on the listener's interface covers ends it as an authorization
/// failure, with nothing sent.
pub proof fn lemma_listener_progress(
    handler: HandlerType,
    pre: ListenerPhase,
    msg: Message,
    record: Option<ServiceRecord>,
    post: ListenerPhase,
    out: ServerOutput,
)
    ensures
        listener_receive(handler, pre, msg, post, out) ==> (listener_done(pre) && post == pre) || listener_rank(
            post,
        ) > listener_rank(pre),
        listener_record(pre, record, post, out) ==> (listener_done(pre) && post == pre) || listener_rank(post)
            > listener_rank(pre),
        listener_receive(handler, pre, msg, post, out) && !listener_done(pre) && !(post is Failed) ==> listener_rank(
            post,
        ) == listener_rank(pre) + 1,
        listener_record(pre, record, post, out) && !listener_done(pre) && !(post is Failed) ==> listener_rank(post)
            == listener_rank(pre) + 1,
        pre matches ListenerPhase::AwaitRequest { permissions, .. } ==> (msg matches Message::Request(action) ==> (
        listener_receive(handler, pre, msg, post, out) && decide(permissions@, handler, action)
            != AuthorizationDecision::Granted ==> post == (ListenerPhase::Failed {
            error: ProtocolError::Authorization(AuthorizationError::AuthorizationFailed),
        }))),
{
}

/// Every message either moves a service's one-way handshake forward by exactly one
/// phase, in the protocol's order, or ends it, and a finished handshake stays as it
/// is; a `false` verdict always ends it as failed.
pub proof fn lemma_identify_progress(
    own_key: (Seq<u8>, Seq<u8>),
    action: Action,
    pre: IdentifyPhase,
    msg: Message,
    post: IdentifyPhase,
    out: Seq<Message>,
)
    requires
        identify_receive(own_key, action, pre, msg, post, out),
    ensures
        (identify_done(pre) && post == pre) || identify_rank(post) > identify_rank(pre),
        !identify_done(pre) && !(post is Failed) ==> identify_rank(post) == identify_rank(pre) + 1,
        !identify_done(pre) && msg == Message::Verdict(false) ==> post is Failed && out.len() == 0,
{
}

/// Each end of the one-way handshake waits for a message exactly while it can take one
/// (the service until it is done; the listener but while the registry is consulted),
/// and the kind it waits for is exactly the kind that it does not reject as
/// unexpected.
pub proof fn lemma_one_way_waits_exactly_for_what_it_handles(
    handler: HandlerType,
    own_key: (Seq<u8>, Seq<u8>),
    action: Action,
    pre: ListenerPhase,
    msg: Message,
    post: ListenerPhase,
    out: ServerOutput,
    ipre: IdentifyPhase,
    imsg: Message,
    ipost: IdentifyPhase,
    iout: Seq<Message>,
)
    ensures
        identify_expects(ipre) is None <==> (ipre is Connected || ipre is Failed),
        identify_receive(own_key, action, ipre, imsg, ipost, iout) && !(ipre is Connected || ipre is Failed) ==> (
        ipost == (IdentifyPhase::Failed { error: ProtocolError::UnexpectedMessage }) <==> identify_expects(ipre)
            != Some(kind_of(imsg))),
        listener_expects(pre) is None <==> (pre is AwaitRecord || pre is Authorized || pre is Failed),
        listener_receive(handler, pre, msg, post, out) && !(pre is AwaitRecord || pre is Authorized || pre is Failed)
            ==> (post == (ListenerPhase::Failed { error: ProtocolError::UnexpectedMessage }) <==> listener_expects(
            pre,
        ) != Some(kind_of(msg))),
{
}

} // verus!
