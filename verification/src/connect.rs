//! The connecting end of a mutual handshake: a service connecting to the core, or
//! the core connecting to a service.

use vstd::prelude::*;
use crate::crypto::{sign_sha256, signature_verdict, signed_by, KeyEncoding, PrivateKey, PublicKey};
use crate::error::{AuthenticationError, AuthorizationError, InitiationError, ProtocolError};
use crate::handshake::{copy_bytes, judge, judgement, kind_of, new_challenge, Judgement, Message, MessageKind,
    CHALLENGE_LEN};
use crate::shared::{Action, HandlerType};

verus! {

/// Where the connecting end stands in its handshake.
pub enum ConnectPhase {
    /// Waiting for the other end's challenge.
    AwaitChallenge,
    /// The challenge was signed; waiting for the other end's verdict.
    AwaitVerdict,
    /// A challenge was sent to the other end; waiting for its signature.
    AwaitSignature { challenge: Vec<u8> },
    /// The other end is identified by `proof` (challenge, signature) and the request is
    /// sent; waiting for the other end's decision.
    AwaitAcceptance { proof: Ghost<(Seq<u8>, Seq<u8>)> },
    /// The request was accepted.
    Connected { proof: Ghost<(Seq<u8>, Seq<u8>)> },
    /// The handshake stopped.
    Failed { error: ProtocolError },
}

/// Whether the connecting end's handshake is over.
pub open spec fn connect_done(p: ConnectPhase) -> bool {
    p is Connected || p is Failed
}

/// What holds of every phase of a handshake with the other end whose key is `peer_key`.
pub open spec fn connect_phase_wf(p: ConnectPhase, peer_key: (KeyEncoding, Seq<u8>)) -> bool {
    match p {
        ConnectPhase::AwaitSignature { challenge } => challenge@.len() == CHALLENGE_LEN,
        ConnectPhase::AwaitAcceptance { proof } => signature_verdict(peer_key, proof@.0, proof@.1) == Some(true),
        ConnectPhase::Connected { proof } => signature_verdict(peer_key, proof@.0, proof@.1) == Some(true),
        _ => true,
    }
}

/// What the connecting end does when `msg` arrives in phase `pre`: it holds the
/// private key read from `own_key` (PEM text and passphrase), trusts the other end's
/// key `peer_key`, asks for `action` on `service`, and fails with `refusal` if the
/// other end declines.
pub open spec fn connect_receive(
    own_key: (Seq<u8>, Seq<u8>),
    peer_key: (KeyEncoding, Seq<u8>),
    service: HandlerType,
    action: Action,
    refusal: ProtocolError,
    pre: ConnectPhase,
    msg: Message,
    post: ConnectPhase,
    out: Seq<Message>,
) -> bool {
    if connect_done(pre) {
        post == pre && out.len() == 0
    } else {
        let unexpected = post == (ConnectPhase::Failed { error: ProtocolError::UnexpectedMessage }) && out.len() == 0;
        match pre {
            ConnectPhase::AwaitChallenge => match msg {
                Message::Challenge(c) => {
                    ||| {
                        &&& post == ConnectPhase::AwaitVerdict
                        &&& out.len() == 1
                        &&& out[0] matches Message::Signature(sig)
                        &&& signed_by(own_key, c@, sig@)
                    }
                    ||| post == (ConnectPhase::Failed { error: ProtocolError::Crypto }) && out.len() == 0
                },
                _ => unexpected,
            },
            ConnectPhase::AwaitVerdict => match msg {
                Message::Verdict(true) => {
                    &&& post matches ConnectPhase::AwaitSignature { challenge }
                    &&& challenge@.len() == CHALLENGE_LEN
                    &&& out.len() == 1
                    &&& out[0] matches Message::Challenge(c) && c@ == challenge@
                },
                Message::Verdict(false) => post == (ConnectPhase::Failed {
                    error: ProtocolError::Authentication(AuthenticationError::AuthenticationFailed),
                }) && out.len() == 0,
                _ => unexpected,
            },
            ConnectPhase::AwaitSignature { challenge } => match msg {
                Message::Signature(sig) => match judgement(signature_verdict(peer_key, challenge@, sig@)) {
                    Judgement::Accept => {
                        &&& post matches ConnectPhase::AwaitAcceptance { proof }
                        &&& proof@ == (challenge@, sig@)
                        &&& out == seq![Message::Verdict(true), Message::Service(service), Message::Request(action)]
                    },
                    Judgement::Reject => post == (ConnectPhase::Failed {
                        error: ProtocolError::Authentication(AuthenticationError::AuthenticationFailed),
                    }) && out == seq![Message::Verdict(false)],
                    Judgement::Broken => post == (ConnectPhase::Failed { error: ProtocolError::Crypto }) && out.len() == 0,
                },
                _ => unexpected,
            },
            ConnectPhase::AwaitAcceptance { proof } => match msg {
                Message::Verdict(true) => post == (ConnectPhase::Connected { proof }) && out.len() == 0,
                Message::Verdict(false) => post == (ConnectPhase::Failed { error: refusal }) && out.len() == 0,
                _ => unexpected,
            },
            _ => unexpected,
        }
    }
}

fn connect_outcome(phase: &ConnectPhase) -> (r: Option<Result<(), &ProtocolError>>)
    ensures
        match *phase {
            ConnectPhase::Connected { .. } => r == Some(Ok::<(), &ProtocolError>(())),
            ConnectPhase::Failed { error } => r matches Some(Err(e)) && *e == error,
            _ => r is None,
        },
{
    match phase {
        ConnectPhase::Connected { .. } => Some(Ok(())),
        ConnectPhase::Failed { error } => Some(Err(error)),
        _ => None,
    }
}

/// One step of the connecting end; see [`connect_receive`].
fn connect_step(
    phase: ConnectPhase,
    msg: Message,
    key: &PrivateKey,
    peer_key: &PublicKey,
    service: HandlerType,
    action: Action,
    refusal: ProtocolError,
) -> (r: (ConnectPhase, Vec<Message>))
    requires
        connect_phase_wf(phase, peer_key@),
    ensures
        connect_receive(key@, peer_key@, service, action, refusal, phase, msg, r.0, r.1@),
        connect_phase_wf(r.0, peer_key@),
{
    let mut out: Vec<Message> = Vec::new();
    let unexpected = ConnectPhase::Failed { error: ProtocolError::UnexpectedMessage };
    let next = match phase {
        ConnectPhase::AwaitChallenge => match msg {
            Message::Challenge(c) => match sign_sha256(key, c.as_slice()) {
                Some(sig) => {
                    out.push(Message::Signature(sig));
                    ConnectPhase::AwaitVerdict
                },
                None => ConnectPhase::Failed { error: ProtocolError::Crypto },
            },
            _ => unexpected,
        },
        ConnectPhase::AwaitVerdict => match msg {
            Message::Verdict(true) => {
                let challenge = new_challenge().unwrap();
                out.push(Message::Challenge(copy_bytes(&challenge)));
                ConnectPhase::AwaitSignature { challenge }
            },
            Message::Verdict(false) => ConnectPhase::Failed {
                error: ProtocolError::Authentication(AuthenticationError::AuthenticationFailed),
            },
            _ => unexpected,
        },
        ConnectPhase::AwaitSignature { challenge } => match msg {
            Message::Signature(sig) => match judge(peer_key, &challenge, &sig) {
                Judgement::Accept => {
                    out.push(Message::Verdict(true));
                    out.push(Message::Service(service));
                    out.push(Message::Request(action));
                    ConnectPhase::AwaitAcceptance { proof: Ghost((challenge@, sig@)) }
                },
                Judgement::Reject => {
                    out.push(Message::Verdict(false));
                    ConnectPhase::Failed {
                        error: ProtocolError::Authentication(AuthenticationError::AuthenticationFailed),
                    }
                },
                Judgement::Broken => ConnectPhase::Failed { error: ProtocolError::Crypto },
            },
            _ => unexpected,
        },
        ConnectPhase::AwaitAcceptance { proof } => match msg {
            Message::Verdict(true) => ConnectPhase::Connected { proof },
            Message::Verdict(false) => ConnectPhase::Failed { error: refusal },
            _ => unexpected,
        },
        ConnectPhase::Connected { .. } | ConnectPhase::Failed { .. } => phase,
    };
    proof {
        if out@.len() == 3 {
            assert(out@ =~= seq![Message::Verdict(true), Message::Service(service), Message::Request(action)]);
        }
        if out@.len() == 1 {
            assert(out@ =~= seq![out@[0]]);
        }
    }
    (next, out)
}

/// A service's end of the handshake with the core that it connects to: it names
/// itself, signs the core's challenge, challenges the core in turn, and asks for
/// `action` on `service`; a refusal is an authorization failure.
pub struct ServerConnection {
    phase: ConnectPhase,
    key: PrivateKey,
    server_key: PublicKey,
    service: HandlerType,
    action: Action,
}

/// The failure of a service whose request the core refused.
pub open spec fn server_refusal() -> ProtocolError {
    ProtocolError::Authorization(AuthorizationError::AuthorizationFailed)
}

impl ServerConnection {
    /// The kind of message that the handshake waits for; `None` when it is done.
    pub fn expects(&self) -> (r: Option<MessageKind>)
        ensures
            r == connect_expects(self.phase()),
    {
        connect_expected(&self.phase)
    }

    /// How the handshake ended: connected, or the failure; `None` while it goes on.
    pub fn outcome(&self) -> (r: Option<Result<(), &ProtocolError>>)
        ensures
            match self.phase() {
                ConnectPhase::Connected { .. } => r == Some(Ok::<(), &ProtocolError>(())),
                ConnectPhase::Failed { error } => r matches Some(Err(e)) && *e == error,
                _ => r is None,
            },
    {
        connect_outcome(&self.phase)
    }

    /// The current phase.
    pub closed spec fn phase(&self) -> ConnectPhase {
        self.phase
    }

    /// The PEM text of the service's own private key, and its passphrase.
    pub closed spec fn key(&self) -> (Seq<u8>, Seq<u8>) {
        self.key@
    }

    /// The core's key that the service trusts.
    pub closed spec fn server_key(&self) -> (KeyEncoding, Seq<u8>) {
        self.server_key@
    }

    /// The interface asked for.
    pub closed spec fn service(&self) -> HandlerType {
        self.service
    }

    /// The action asked for.
    pub closed spec fn action(&self) -> Action {
        self.action
    }

    /// Whether the state is one that the handshake reaches.
    pub open spec fn well_formed(&self) -> bool {
        connect_phase_wf(self.phase(), self.server_key())
    }

    /// Opens the handshake of the service `name`, which holds `key` and trusts the core's
    /// `server_key`, for `action` on `service`; the returned message goes first.
    pub fn new(name: String, key: PrivateKey, server_key: PublicKey, service: HandlerType, action: Action) -> (r: (
        Self,
        Message,
    ))
        ensures
            r.0.phase() == ConnectPhase::AwaitChallenge,
            r.0.key() == key@,
            r.0.server_key() == server_key@,
            r.0.service() == service,
            r.0.action() == action,
            r.0.well_formed(),
            r.1 == Message::Name(name),
    {
        let first = Message::Name(name);
        (ServerConnection { phase: ConnectPhase::AwaitChallenge, key, server_key, service, action }, first)
    }

    /// Handles a message from the core; returns the messages to send, in order.
    pub fn receive(&mut self, msg: Message) -> (out: Vec<Message>)
        requires
            old(self).well_formed(),
        ensures
            connect_receive(old(self).key(), old(self).server_key(), old(self).service(), old(self).action(),
                server_refusal(), old(self).phase(), msg, final(self).phase(), out@),
            final(self).key() == old(self).key(),
            final(self).server_key() == old(self).server_key(),
            final(self).service() == old(self).service(),
            final(self).action() == old(self).action(),
            final(self).well_formed(),
    {
        let mut phase = ConnectPhase::Failed { error: ProtocolError::UnexpectedMessage };
        std::mem::swap(&mut phase, &mut self.phase);
        let refusal = ProtocolError::Authorization(AuthorizationError::AuthorizationFailed);
        let (next, out) = connect_step(phase, msg, &self.key, &self.server_key, self.service, self.action, refusal);
        self.phase = next;
        out
    }
}

/// The core's end of a handshake with a service that it connects to: it signs the
/// service's challenge, challenges the service in turn, and asks for `action` on
/// `service`; a refusal means that the service does not support it.
pub struct ClientConnection {
    phase: ConnectPhase,
    key: PrivateKey,
    client_key: PublicKey,
    service: HandlerType,
    action: Action,
}

/// The failure of the core when a service declines a request.
pub open spec fn client_refusal() -> ProtocolError {
    ProtocolError::Initiation(InitiationError::ServiceNotSupported)
}

impl ClientConnection {
    /// The kind of message that the handshake waits for; `None` when it is done.
    pub fn expects(&self) -> (r: Option<MessageKind>)
        ensures
            r == connect_expects(self.phase()),
    {
        connect_expected(&self.phase)
    }

    /// How the handshake ended: connected, or the failure; `None` while it goes on.
    pub fn outcome(&self) -> (r: Option<Result<(), &ProtocolError>>)
        ensures
            match self.phase() {
                ConnectPhase::Connected { .. } => r == Some(Ok::<(), &ProtocolError>(())),
                ConnectPhase::Failed { error } => r matches Some(Err(e)) && *e == error,
                _ => r is None,
            },
    {
        connect_outcome(&self.phase)
    }

    /// The current phase.
    pub closed spec fn phase(&self) -> ConnectPhase {
        self.phase
    }

    /// The PEM text of the core's own private key, and its passphrase.
    pub closed spec fn key(&self) -> (Seq<u8>, Seq<u8>) {
        self.key@
    }

    /// The service's key that the core trusts.
    pub closed spec fn client_key(&self) -> (KeyEncoding, Seq<u8>) {
        self.client_key@
    }

    /// The interface asked for.
    pub closed spec fn service(&self) -> HandlerType {
        self.service
    }

    /// The action asked for.
    pub closed spec fn action(&self) -> Action {
        self.action
    }

    /// Whether the state is one that the handshake reaches.
    pub open spec fn well_formed(&self) -> bool {
        connect_phase_wf(self.phase(), self.client_key())
    }

    /// Opens the handshake of the core, which holds `key`, with the service whose key is
    /// `client_key`, for `action` on `service`; the service speaks first.
    pub fn new(key: PrivateKey, client_key: PublicKey, service: HandlerType, action: Action) -> (r: Self)
        ensures
            r.phase() == ConnectPhase::AwaitChallenge,
            r.key() == key@,
            r.client_key() == client_key@,
            r.service() == service,
            r.action() == action,
            r.well_formed(),
    {
        ClientConnection { phase: ConnectPhase::AwaitChallenge, key, client_key, service, action }
    }

    /// Handles a message from the service; returns the messages to send, in order.
    pub fn receive(&mut self, msg: Message) -> (out: Vec<Message>)
        requires
            old(self).well_formed(),
        ensures
            connect_receive(old(self).key(), old(self).client_key(), old(self).service(), old(self).action(),
                client_refusal(), old(self).phase(), msg, final(self).phase(), out@),
            final(self).key() == old(self).key(),
            final(self).client_key() == old(self).client_key(),
            final(self).service() == old(self).service(),
            final(self).action() == old(self).action(),
            final(self).well_formed(),
    {
        let mut phase = ConnectPhase::Failed { error: ProtocolError::UnexpectedMessage };
        std::mem::swap(&mut phase, &mut self.phase);
        let refusal = ProtocolError::Initiation(InitiationError::ServiceNotSupported);
        let (next, out) = connect_step(phase, msg, &self.key, &self.client_key, self.service, self.action, refusal);
        self.phase = next;
        out
    }
}

/// The order in which the connecting end moves through its phases.
pub open spec fn connect_rank(p: ConnectPhase) -> nat {
    match p {
        ConnectPhase::AwaitChallenge => 0,
        ConnectPhase::AwaitVerdict => 1,
        ConnectPhase::AwaitSignature { .. } => 2,
        ConnectPhase::AwaitAcceptance { .. } => 3,
        ConnectPhase::Connected { .. } => 4,
        ConnectPhase::Failed { .. } => 4,
    }
}

/// Every message either moves the connecting end's handshake forward by exactly one
/// phase, in the protocol's order, or ends it, and a finished handshake stays as it is.
pub proof fn lemma_connect_progress(
    own_key: (Seq<u8>, Seq<u8>),
    peer_key: (KeyEncoding, Seq<u8>),
    service: HandlerType,
    action: Action,
    refusal: ProtocolError,
    pre: ConnectPhase,
    msg: Message,
    post: ConnectPhase,
    out: Seq<Message>,
)
    requires
        connect_receive(own_key, peer_key, service, action, refusal, pre, msg, post, out),
    ensures
        (connect_done(pre) && post == pre) || connect_rank(post) > connect_rank(pre),
        !connect_done(pre) && !(post is Failed) ==> connect_rank(post) == connect_rank(pre) + 1,
{
}

/// The connecting end only ever sends its request, and is only ever connected, after
/// the other end signed, with the key it trusts, a challenge that it drew.
pub proof fn lemma_connected_peer_was_proven(
    own_key: (Seq<u8>, Seq<u8>),
    peer_key: (KeyEncoding, Seq<u8>),
    service: HandlerType,
    action: Action,
    refusal: ProtocolError,
    pre: ConnectPhase,
    msg: Message,
    post: ConnectPhase,
    out: Seq<Message>,
)
    requires
        connect_phase_wf(pre, peer_key),
        connect_receive(own_key, peer_key, service, action, refusal, pre, msg, post, out),
    ensures
        out.contains(Message::Request(action)) ==> (pre matches ConnectPhase::AwaitSignature { challenge } && msg matches Message::Signature(sig)
            && signature_verdict(peer_key, challenge@, sig@) == Some(true)),
        post matches ConnectPhase::Connected { proof } ==> signature_verdict(peer_key, proof@.0, proof@.1) == Some(true),
{
    if out.contains(Message::Request(action)) {
        let i = choose|i: int| 0 <= i < out.len() && out[i] == Message::Request(action);
    }
}

/// The kind of message that the connecting end waits for in phase `p`; `None` when it
/// is done.
pub open spec fn connect_expects(p: ConnectPhase) -> Option<MessageKind> {
    match p {
        ConnectPhase::AwaitChallenge => Some(MessageKind::Challenge),
        ConnectPhase::AwaitVerdict => Some(MessageKind::Verdict),
        ConnectPhase::AwaitSignature { .. } => Some(MessageKind::Signature),
        ConnectPhase::AwaitAcceptance { .. } => Some(MessageKind::Verdict),
        _ => None,
    }
}

fn connect_expected(phase: &ConnectPhase) -> (r: Option<MessageKind>)
    ensures
        r == connect_expects(*phase),
{
    match phase {
        ConnectPhase::AwaitChallenge => Some(MessageKind::Challenge),
        ConnectPhase::AwaitVerdict => Some(MessageKind::Verdict),
        ConnectPhase::AwaitSignature { .. } => Some(MessageKind::Signature),
        ConnectPhase::AwaitAcceptance { .. } => Some(MessageKind::Verdict),
        _ => None,
    }
}

/// A message of the kind that the connecting end waits for never fails the handshake
/// as unexpected.
pub proof fn lemma_connect_expected_messages_handled(
    own_key: (Seq<u8>, Seq<u8>),
    peer_key: (KeyEncoding, Seq<u8>),
    service: HandlerType,
    action: Action,
    refusal: ProtocolError,
    pre: ConnectPhase,
    msg: Message,
    post: ConnectPhase,
    out: Seq<Message>,
)
    requires
        connect_receive(own_key, peer_key, service, action, refusal, pre, msg, post, out),
        connect_expects(pre) == Some(kind_of(msg)),
        refusal != ProtocolError::UnexpectedMessage,
    ensures
        post != (ConnectPhase::Failed { error: ProtocolError::UnexpectedMessage }),
{
}

/// The connecting end waits for a message exactly while its handshake is not done,
/// and the kind it waits for is exactly the kind that it does not reject as unexpected.
pub proof fn lemma_connect_waits_exactly_for_what_it_handles(
    own_key: (Seq<u8>, Seq<u8>),
    peer_key: (KeyEncoding, Seq<u8>),
    service: HandlerType,
    action: Action,
    refusal: ProtocolError,
    pre: ConnectPhase,
    msg: Message,
    post: ConnectPhase,
    out: Seq<Message>,
)
    requires
        refusal != ProtocolError::UnexpectedMessage,
    ensures
        connect_expects(pre) is None <==> (pre is Connected || pre is Failed),
        connect_receive(own_key, peer_key, service, action, refusal, pre, msg, post, out) && !(pre is Connected
            || pre is Failed) ==> (post == (ConnectPhase::Failed { error: ProtocolError::UnexpectedMessage })
            <==> connect_expects(pre) != Some(kind_of(msg))),
{
}

/// A `false` verdict never lets the connecting end go on: in any phase that is not
/// done it ends the handshake as failed and sends nothing; a refused signature is an
/// authentication failure, and a refused request fails with `refusal`.
pub proof fn lemma_false_verdict_ends_connect_handshake(
    own_key: (Seq<u8>, Seq<u8>),
    peer_key: (KeyEncoding, Seq<u8>),
    service: HandlerType,
    action: Action,
    refusal: ProtocolError,
    pre: ConnectPhase,
    post: ConnectPhase,
    out: Seq<Message>,
)
    requires
        connect_receive(own_key, peer_key, service, action, refusal, pre, Message::Verdict(false), post, out),
        !(pre is Connected || pre is Failed),
    ensures
        post is Failed,
        out.len() == 0,
        pre is AwaitVerdict ==> post == (ConnectPhase::Failed {
            error: ProtocolError::Authentication(AuthenticationError::AuthenticationFailed),
        }),
        pre is AwaitAcceptance ==> post == (ConnectPhase::Failed { error: refusal }),
{
}

} // verus!
