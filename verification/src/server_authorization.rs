//! A service's end of the handshake with the core that connects to it.

use vstd::prelude::*;
use crate::crypto::{key_pair, sign_sha256, signature_verdict, signed_by, KeyEncoding, PrivateKey, PublicKey};
use crate::error::{AuthenticationError, ProtocolError};
use crate::handshake::{copy_bytes, judge, judgement, kind_of, new_challenge, Judgement, Message, MessageKind,
    CHALLENGE_LEN};
use crate::connect::{client_refusal, connect_receive, ConnectPhase};
use crate::shared::{Action, HandlerType};

verus! {

/// Where a service stands in the handshake with the core that connected to it.
pub enum AcceptPhase {
    /// Nothing was sent yet.
    Start,
    /// A challenge was sent to the core; waiting for its signature.
    AwaitSignature { challenge: Vec<u8> },
    /// The core is identified by `proof` (challenge, signature); waiting for its challenge.
    AwaitChallenge { proof: Ghost<(Seq<u8>, Seq<u8>)> },
    /// The core's challenge was signed; waiting for its verdict.
    AwaitVerdict { proof: Ghost<(Seq<u8>, Seq<u8>)> },
    /// Both ends are identified; waiting for the interface.
    AwaitService { proof: Ghost<(Seq<u8>, Seq<u8>)> },
    /// Waiting for the action on `service`.
    AwaitRequest { service: HandlerType, proof: Ghost<(Seq<u8>, Seq<u8>)> },
    /// The core asked for `action` on `service`.
    Accepted { service: HandlerType, action: Action, proof: Ghost<(Seq<u8>, Seq<u8>)> },
    /// The handshake stopped.
    Failed { error: ProtocolError },
}

/// Whether the accepting service's handshake is over.
pub open spec fn accept_done(p: AcceptPhase) -> bool {
    p is Accepted || p is Failed
}

/// What holds of every phase of a handshake with the core whose key is `server_key`.
pub open spec fn accept_phase_wf(p: AcceptPhase, server_key: (KeyEncoding, Seq<u8>)) -> bool {
    match p {
        AcceptPhase::AwaitSignature { challenge } => challenge@.len() == CHALLENGE_LEN,
        AcceptPhase::AwaitChallenge { proof } => signature_verdict(server_key, proof@.0, proof@.1) == Some(true),
        AcceptPhase::AwaitVerdict { proof } => signature_verdict(server_key, proof@.0, proof@.1) == Some(true),
        AcceptPhase::AwaitService { proof } => signature_verdict(server_key, proof@.0, proof@.1) == Some(true),
        AcceptPhase::AwaitRequest { proof, .. } => signature_verdict(server_key, proof@.0, proof@.1) == Some(true),
        AcceptPhase::Accepted { proof, .. } => signature_verdict(server_key, proof@.0, proof@.1) == Some(true),
        _ => true,
    }
}

/// What the service does when it opens the handshake in phase `pre`.
pub open spec fn accept_start(pre: AcceptPhase, post: AcceptPhase, out: Seq<Message>) -> bool {
    match pre {
        AcceptPhase::Start => {
            &&& post matches AcceptPhase::AwaitSignature { challenge }
            &&& challenge@.len() == CHALLENGE_LEN
            &&& out.len() == 1
            &&& out[0] matches Message::Challenge(c) && c@ == challenge@
        },
        _ => post == pre && out.len() == 0,
    }
}

/// What the service, holding the private key read from `own_key` (PEM text and
/// passphrase), does when `msg` arrives from the core whose key is `server_key` in
/// phase `pre`.
pub open spec fn accept_receive(own_key: (Seq<u8>, Seq<u8>), server_key: (KeyEncoding, Seq<u8>), pre: AcceptPhase, msg: Message, post: AcceptPhase, out: Seq<Message>) -> bool {
    if accept_done(pre) {
        post == pre && out.len() == 0
    } else {
        let unexpected = post == (AcceptPhase::Failed { error: ProtocolError::UnexpectedMessage }) && out.len() == 0;
        match pre {
            AcceptPhase::AwaitSignature { challenge } => match msg {
                Message::Signature(sig) => match judgement(signature_verdict(server_key, challenge@, sig@)) {
                    Judgement::Accept => {
                        &&& post matches AcceptPhase::AwaitChallenge { proof }
                        &&& proof@ == (challenge@, sig@)
                        &&& out == seq![Message::Verdict(true)]
                    },
                    Judgement::Reject => post == (AcceptPhase::Failed {
                        error: ProtocolError::Authentication(AuthenticationError::AuthenticationFailed),
                    }) && out == seq![Message::Verdict(false)],
                    Judgement::Broken => post == (AcceptPhase::Failed { error: ProtocolError::Crypto }) && out.len() == 0,
                },
                _ => unexpected,
            },
            AcceptPhase::AwaitChallenge { proof } => match msg {
                Message::Challenge(c) => {
                    ||| {
                        &&& post == (AcceptPhase::AwaitVerdict { proof })
                        &&& out.len() == 1
                        &&& out[0] matches Message::Signature(sig)
                        &&& signed_by(own_key, c@, sig@)
                    }
                    ||| post == (AcceptPhase::Failed { error: ProtocolError::Crypto }) && out.len() == 0
                },
                _ => unexpected,
            },
            AcceptPhase::AwaitVerdict { proof } => match msg {
                Message::Verdict(true) => post == (AcceptPhase::AwaitService { proof }) && out.len() == 0,
                Message::Verdict(false) => post == (AcceptPhase::Failed {
                    error: ProtocolError::Authentication(AuthenticationError::AuthenticationFailed),
                }) && out.len() == 0,
                _ => unexpected,
            },
            AcceptPhase::AwaitService { proof } => match msg {
                Message::Service(service) => post == (AcceptPhase::AwaitRequest { service, proof }) && out.len() == 0,
                _ => unexpected,
            },
            AcceptPhase::AwaitRequest { service, proof } => match msg {
                Message::Request(action) => post == (AcceptPhase::Accepted { service, action, proof }) && out.len() == 0,
                _ => unexpected,
            },
            // The service speaks first: nothing is expected before its challenge went out.
            _ => unexpected,
        }
    }
}

/// A service's end of a handshake with the core that connected to it: it challenges
/// the core, signs the core's challenge in turn, and learns what the core asks for.
pub struct ServerAuthorization {
    phase: AcceptPhase,
    key: PrivateKey,
    server_key: PublicKey,
}

impl ServerAuthorization {
    /// The kind of message that the service waits for; `None` before it sent its
    /// challenge and when it is done.
    pub fn expects(&self) -> (r: Option<MessageKind>)
        ensures
            r == accept_expects(self.phase()),
    {
        match &self.phase {
            AcceptPhase::AwaitSignature { .. } => Some(MessageKind::Signature),
            AcceptPhase::AwaitChallenge { .. } => Some(MessageKind::Challenge),
            AcceptPhase::AwaitVerdict { .. } => Some(MessageKind::Verdict),
            AcceptPhase::AwaitService { .. } => Some(MessageKind::Service),
            AcceptPhase::AwaitRequest { .. } => Some(MessageKind::Request),
            _ => None,
        }
    }

    /// How the handshake ended: the interface and action that the core asked for, or
    /// the failure; `None` while it goes on.
    pub fn outcome(&self) -> (r: Option<Result<(HandlerType, Action), &ProtocolError>>)
        ensures
            match self.phase() {
                AcceptPhase::Accepted { service, action, .. } => r == Some(
                    Ok::<(HandlerType, Action), &ProtocolError>((service, action)),
                ),
                AcceptPhase::Failed { error } => r matches Some(Err(e)) && *e == error,
                _ => r is None,
            },
    {
        match &self.phase {
            AcceptPhase::Accepted { service, action, .. } => Some(Ok((*service, *action))),
            AcceptPhase::Failed { error } => Some(Err(error)),
            _ => None,
        }
    }

    /// The current phase.
    pub closed spec fn phase(&self) -> AcceptPhase {
        self.phase
    }

    /// The PEM text of the service's own private key, and its passphrase.
    pub closed spec fn key(&self) -> (Seq<u8>, Seq<u8>) {
        self.key@
    }

    /// The core's key that the service trusts.
    pub closed spec fn server_key(&self) -> (KeyEncoding, Seq<u8>) {
        self.server_key@
    }

    /// Whether the state is one that the handshake reaches.
    pub open spec fn well_formed(&self) -> bool {
        accept_phase_wf(self.phase(), self.server_key())
    }

    /// A handshake of the service, which holds `key`, with the core whose key is `server_key`.
    pub fn new(key: PrivateKey, server_key: PublicKey) -> (r: Self)
        ensures
            r.phase() == AcceptPhase::Start,
            r.key() == key@,
            r.server_key() == server_key@,
            r.well_formed(),
    {
        ServerAuthorization { phase: AcceptPhase::Start, key, server_key }
    }

    /// Opens the handshake with a fresh challenge; returns the messages to send.
    pub fn start(&mut self) -> (out: Vec<Message>)
        requires
            old(self).well_formed(),
        ensures
            accept_start(old(self).phase(), final(self).phase(), out@),
            final(self).key() == old(self).key(),
            final(self).server_key() == old(self).server_key(),
            final(self).well_formed(),
    {
        let mut out: Vec<Message> = Vec::new();
        match self.phase {
            AcceptPhase::Start => {
                let challenge = new_challenge().unwrap();
                out.push(Message::Challenge(copy_bytes(&challenge)));
                self.phase = AcceptPhase::AwaitSignature { challenge };
            },
            _ => {},
        }
        proof {
            if out@.len() == 1 {
                assert(out@ =~= seq![out@[0]]);
            }
        }
        out
    }

    /// Handles a message from the core; returns the messages to send, in order.
    pub fn receive(&mut self, msg: Message) -> (out: Vec<Message>)
        requires
            old(self).well_formed(),
        ensures
            accept_receive(old(self).key(), old(self).server_key(), old(self).phase(), msg, final(self).phase(), out@),
            final(self).key() == old(self).key(),
            final(self).server_key() == old(self).server_key(),
            final(self).well_formed(),
    {
        let mut phase = AcceptPhase::Failed { error: ProtocolError::UnexpectedMessage };
        std::mem::swap(&mut phase, &mut self.phase);
        let mut out: Vec<Message> = Vec::new();
        let unexpected = AcceptPhase::Failed { error: ProtocolError::UnexpectedMessage };
        let next = match phase {
            AcceptPhase::AwaitSignature { challenge } => match msg {
                Message::Signature(sig) => match judge(&self.server_key, &challenge, &sig) {
                    Judgement::Accept => {
                        out.push(Message::Verdict(true));
                        AcceptPhase::AwaitChallenge { proof: Ghost((challenge@, sig@)) }
                    },
                    Judgement::Reject => {
                        out.push(Message::Verdict(false));
                        AcceptPhase::Failed {
                            error: ProtocolError::Authentication(AuthenticationError::AuthenticationFailed),
                        }
                    },
                    Judgement::Broken => AcceptPhase::Failed { error: ProtocolError::Crypto },
                },
                _ => unexpected,
            },
            AcceptPhase::AwaitChallenge { proof } => match msg {
                Message::Challenge(c) => match sign_sha256(&self.key, c.as_slice()) {
                    Some(sig) => {
                        out.push(Message::Signature(sig));
                        AcceptPhase::AwaitVerdict { proof }
                    },
                    None => AcceptPhase::Failed { error: ProtocolError::Crypto },
                },
                _ => unexpected,
            },
            AcceptPhase::AwaitVerdict { proof } => match msg {
                Message::Verdict(true) => AcceptPhase::AwaitService { proof },
                Message::Verdict(false) => AcceptPhase::Failed {
                    error: ProtocolError::Authentication(AuthenticationError::AuthenticationFailed),
                },
                _ => unexpected,
            },
            AcceptPhase::AwaitService { proof } => match msg {
                Message::Service(service) => AcceptPhase::AwaitRequest { service, proof },
                _ => unexpected,
            },
            AcceptPhase::AwaitRequest { service, proof } => match msg {
                Message::Request(action) => AcceptPhase::Accepted { service, action, proof },
                _ => unexpected,
            },
            AcceptPhase::Accepted { .. } | AcceptPhase::Failed { .. } => phase,
            AcceptPhase::Start => unexpected,
        };
        self.phase = next;
        proof {
            if out@.len() == 1 {
                assert(out@ =~= seq![out@[0]]);
            }
        }
        out
    }
}

/// The order in which the accepting service moves through its phases.
pub open spec fn accept_rank(p: AcceptPhase) -> nat {
    match p {
        AcceptPhase::Start => 0,
        AcceptPhase::AwaitSignature { .. } => 1,
        AcceptPhase::AwaitChallenge { .. } => 2,
        AcceptPhase::AwaitVerdict { .. } => 3,
        AcceptPhase::AwaitService { .. } => 4,
        AcceptPhase::AwaitRequest { .. } => 5,
        AcceptPhase::Accepted { .. } => 6,
        AcceptPhase::Failed { .. } => 6,
    }
}

/// Every step either moves the accepting service's handshake forward by exactly one
/// phase, in the protocol's order, or ends it, and a finished handshake stays as it is.
pub proof fn lemma_accept_progress(own_key: (Seq<u8>, Seq<u8>), server_key: (KeyEncoding, Seq<u8>), pre: AcceptPhase, msg: Message, post: AcceptPhase, out: Seq<Message>)
    ensures
        accept_receive(own_key, server_key, pre, msg, post, out) ==> (accept_done(pre) && post == pre) || accept_rank(post)
            > accept_rank(pre),
        accept_start(pre, post, out) ==> post == pre || accept_rank(post) > accept_rank(pre),
        accept_receive(own_key, server_key, pre, msg, post, out) && !accept_done(pre) && !(post is Failed)
            ==> accept_rank(post) == accept_rank(pre) + 1,
        accept_start(pre, post, out) && pre is Start ==> accept_rank(post) == accept_rank(pre) + 1,
{
}

/// A service only ever accepts a request from a core that signed, with the key it
/// trusts, a challenge that the service drew.
pub proof fn lemma_accepted_core_was_proven(p: AcceptPhase, server_key: (KeyEncoding, Seq<u8>))
    requires
        accept_phase_wf(p, server_key),
        p is Accepted,
    ensures
        match p {
            AcceptPhase::Accepted { proof, .. } => signature_verdict(server_key, proof@.0, proof@.1) == Some(true),
            _ => false,
        },
{
}

/// When the core connects to a service, each holding its own key and trusting the
/// other's real key, the handshake goes through: the service learns exactly the
/// interface and action that the core asked for, and the core waits for the service's
/// answer. Signing may fail inside openssl, so the run considered is one in which
/// neither end failed to sign.
pub proof fn lemma_core_reaches_service(
    core_key: (Seq<u8>, Seq<u8>),
    service_key: (Seq<u8>, Seq<u8>),
    trusted_core_key: (KeyEncoding, Seq<u8>),
    trusted_service_key: (KeyEncoding, Seq<u8>),
    service: HandlerType,
    action: Action,
    a1: AcceptPhase,
    ao1: Seq<Message>,
    q1: ConnectPhase,
    qo1: Seq<Message>,
    a2: AcceptPhase,
    ao2: Seq<Message>,
    q2: ConnectPhase,
    qo2: Seq<Message>,
    a3: AcceptPhase,
    ao3: Seq<Message>,
    q3: ConnectPhase,
    qo3: Seq<Message>,
    a4: AcceptPhase,
    ao4: Seq<Message>,
    a5: AcceptPhase,
    ao5: Seq<Message>,
    a6: AcceptPhase,
    ao6: Seq<Message>,
)
    requires
        key_pair(trusted_core_key, core_key),
        key_pair(trusted_service_key, service_key),
        accept_start(AcceptPhase::Start, a1, ao1),
        connect_receive(core_key, trusted_service_key, service, action, client_refusal(),
            ConnectPhase::AwaitChallenge, ao1[0], q1, qo1),
        q1 != (ConnectPhase::Failed { error: ProtocolError::Crypto }),
        accept_receive(service_key, trusted_core_key, a1, qo1[0], a2, ao2),
        connect_receive(core_key, trusted_service_key, service, action, client_refusal(), q1, ao2[0], q2, qo2),
        accept_receive(service_key, trusted_core_key, a2, qo2[0], a3, ao3),
        a3 != (AcceptPhase::Failed { error: ProtocolError::Crypto }),
        connect_receive(core_key, trusted_service_key, service, action, client_refusal(), q2, ao3[0], q3, qo3),
        accept_receive(service_key, trusted_core_key, a3, qo3[0], a4, ao4),
        accept_receive(service_key, trusted_core_key, a4, qo3[1], a5, ao5),
        accept_receive(service_key, trusted_core_key, a5, qo3[2], a6, ao6),
    ensures
        ao1.len() == 1 && ao1[0] is Challenge,
        qo1.len() == 1 && qo1[0] is Signature,
        ao2 == seq![Message::Verdict(true)],
        qo2.len() == 1 && qo2[0] is Challenge,
        ao3.len() == 1 && ao3[0] is Signature,
        qo3 == seq![Message::Verdict(true), Message::Service(service), Message::Request(action)],
        ao4.len() == 0 && ao5.len() == 0 && ao6.len() == 0,
        a6 matches AcceptPhase::Accepted { service: s, action: a, .. } && s == service && a == action,
        q3 is AwaitAcceptance,
{
    // The service's challenge reaches the core, whose signature the service accepts.
    if let AcceptPhase::AwaitSignature { challenge } = a1 {
        let sig = qo1[0]->Signature_0;
        assert(signed_by(core_key, challenge@, sig@));
        assert(signature_verdict(trusted_core_key, challenge@, sig@) == Some(true));
    }
    // The core's challenge reaches the service, whose signature the core accepts.
    if let ConnectPhase::AwaitSignature { challenge } = q2 {
        let sig = ao3[0]->Signature_0;
        assert(signed_by(service_key, challenge@, sig@));
        assert(signature_verdict(trusted_service_key, challenge@, sig@) == Some(true));
    }
}

/// The kind of message that the accepting service waits for in phase `p`; `None`
/// before it sent its challenge and when it is done.
pub open spec fn accept_expects(p: AcceptPhase) -> Option<MessageKind> {
    match p {
        AcceptPhase::AwaitSignature { .. } => Some(MessageKind::Signature),
        AcceptPhase::AwaitChallenge { .. } => Some(MessageKind::Challenge),
        AcceptPhase::AwaitVerdict { .. } => Some(MessageKind::Verdict),
        AcceptPhase::AwaitService { .. } => Some(MessageKind::Service),
        AcceptPhase::AwaitRequest { .. } => Some(MessageKind::Request),
        _ => None,
    }
}

/// A message of the kind that the accepting service waits for never fails the
/// handshake as unexpected.
pub proof fn lemma_accept_expected_messages_handled(
    own_key: (Seq<u8>, Seq<u8>),
    server_key: (KeyEncoding, Seq<u8>),
    pre: AcceptPhase,
    msg: Message,
    post: AcceptPhase,
    out: Seq<Message>,
)
    requires
        accept_receive(own_key, server_key, pre, msg, post, out),
        accept_expects(pre) == Some(kind_of(msg)),
    ensures
        post != (AcceptPhase::Failed { error: ProtocolError::UnexpectedMessage }),
{
}

/// Once it has sent its challenge, the accepting service waits for a message in every
/// phase until it is done, and the kind it waits for is exactly the kind that it does
/// not reject as unexpected.
pub proof fn lemma_accept_waits_exactly_for_what_it_handles(
    own_key: (Seq<u8>, Seq<u8>),
    server_key: (KeyEncoding, Seq<u8>),
    pre: AcceptPhase,
    msg: Message,
    post: AcceptPhase,
    out: Seq<Message>,
)
    ensures
        accept_expects(pre) is None <==> (pre is Start || pre is Accepted || pre is Failed),
        accept_receive(own_key, server_key, pre, msg, post, out) && !(pre is Start || pre is Accepted
            || pre is Failed) ==> (post == (AcceptPhase::Failed { error: ProtocolError::UnexpectedMessage })
            <==> accept_expects(pre) != Some(kind_of(msg))),
{
}

/// A `false` verdict never lets the accepting service go on: in any phase that is not
/// done it ends the handshake as failed and sends nothing, and when the service waits
/// for the core's verdict on its signature, the failure is an authentication failure.
pub proof fn lemma_false_verdict_ends_accept_handshake(
    own_key: (Seq<u8>, Seq<u8>),
    server_key: (KeyEncoding, Seq<u8>),
    pre: AcceptPhase,
    post: AcceptPhase,
    out: Seq<Message>,
)
    requires
        accept_receive(own_key, server_key, pre, Message::Verdict(false), post, out),
        !(pre is Accepted || pre is Failed),
    ensures
        post is Failed,
        out.len() == 0,
        pre is AwaitVerdict ==> post == (AcceptPhase::Failed {
            error: ProtocolError::Authentication(AuthenticationError::AuthenticationFailed),
        }),
{
}

} // verus!
