//! The handshakes that open every connection.
//!
//! Both ends prove who they are by signing a random challenge of the other end;
//! the side that accepts connections then learns which interface and which action
//! the other side wants. Each end is a state machine: the driver hands it what
//! arrived (a [`Message`], or the answer of a lookup) and sends what it returns.

use vstd::prelude::*;
use crate::crypto::{random_bytes, signature_verdict, verify_sha256, KeyEncoding, PublicKey};
use crate::shared::{Action, HandlerType, Permission};

verus! {

/// How many random bytes make a challenge.
pub const CHALLENGE_LEN: usize = 512;

/// One unit of the handshake, as it travels between the two ends.
#[derive(Debug, Clone)]
pub enum Message {
    /// The name under which a service is registered.
    Name(String),
    /// Random bytes to be signed by the other end.
    Challenge(Vec<u8>),
    /// A signature of the last challenge.
    Signature(Vec<u8>),
    /// Whether the other end's last claim was accepted.
    Verdict(bool),
    /// The interface that a connection is for.
    Service(HandlerType),
    /// What the connection wants to do on that interface.
    Request(Action),
}

/// What the core's registry holds of a service, as found by its name.
#[derive(Debug, Clone)]
pub struct ServiceRecord {
    pub permissions: Vec<Permission>,
    /// The service's public key, PEM encoded.
    pub public_key: Vec<u8>,
}

/// How a challenger judges the answer to its challenge.
#[derive(Debug, Clone, Copy, PartialEq, Eq, Structural)]
pub enum Judgement {
    /// The signature is valid: the peer is told `true`.
    Accept,
    /// The signature is invalid: the peer is told `false`.
    Reject,
    /// openssl failed: nothing is told.
    Broken,
}

/// The judgement that an openssl verdict leads to.
pub open spec fn judgement(v: Option<bool>) -> Judgement {
    match v {
        Some(true) => Judgement::Accept,
        Some(false) => Judgement::Reject,
        None => Judgement::Broken,
    }
}

/// Judges `signature` as an answer to `challenge` from the holder of `peer`.
pub fn judge(peer: &PublicKey, challenge: &Vec<u8>, signature: &Vec<u8>) -> (r: Judgement)
    ensures
        r == judgement(signature_verdict(peer@, challenge@, signature@)),
{
    match verify_sha256(peer, challenge.as_slice(), signature.as_slice()) {
        Some(true) => Judgement::Accept,
        Some(false) => Judgement::Reject,
        None => Judgement::Broken,
    }
}

/// Draws a fresh challenge of [`CHALLENGE_LEN`] random bytes.
pub fn new_challenge() -> (r: Option<Vec<u8>>)
    ensures
        r is Some,
        r matches Some(c) ==> c@.len() == CHALLENGE_LEN,
{
    random_bytes(CHALLENGE_LEN)
}

pub(crate) fn copy_bytes(v: &Vec<u8>) -> (r: Vec<u8>)
    ensures
        r@ == v@,
{
    let mut r: Vec<u8> = Vec::new();
    let mut i: usize = 0;
    while i < v.len()
        invariant
            i <= v@.len(),
            r@ == v@.subrange(0, i as int),
        decreases v@.len() - i,
    {
        r.push(v[i]);
        i = i + 1;
        proof {
            assert(r@ =~= v@.subrange(0, i as int));
        }
    }
    proof {
        assert(r@ =~= v@);
    }
    r
}

/// What the core has established of a service once its signature checked out.
pub struct Identity {
    /// The name the service gave.
    pub name: Seq<char>,
    /// The key registered under that name.
    pub key: (KeyEncoding, Seq<u8>),
    /// The challenge the core sent.
    pub challenge: Seq<u8>,
    /// The signature the service answered with.
    pub signature: Seq<u8>,
}

impl Identity {
    /// The signature is a valid signature of the challenge under the registered key.
    pub open spec fn proven(self) -> bool {
        signature_verdict(self.key, self.challenge, self.signature) == Some(true)
    }
}

/// What the core does after a step of the handshake.
#[derive(Debug)]
pub enum ServerOutput {
    Nothing,
    /// Look the name up in the registry and hand the answer back to the handshake.
    LookUp(String),
    Send(Message),
}

/// The kinds of [`Message`].
#[derive(Debug, Clone, Copy, PartialEq, Eq, Structural)]
pub enum MessageKind {
    Name,
    Challenge,
    Signature,
    Verdict,
    Service,
    Request,
}

/// The kind of a message.
pub open spec fn kind_of(m: Message) -> MessageKind {
    match m {
        Message::Name(_) => MessageKind::Name,
        Message::Challenge(_) => MessageKind::Challenge,
        Message::Signature(_) => MessageKind::Signature,
        Message::Verdict(_) => MessageKind::Verdict,
        Message::Service(_) => MessageKind::Service,
        Message::Request(_) => MessageKind::Request,
    }
}

impl Message {
    /// The kind of this message.
    pub fn kind(&self) -> (r: MessageKind)
        ensures
            r == kind_of(*self),
    {
        match self {
            Message::Name(_) => MessageKind::Name,
            Message::Challenge(_) => MessageKind::Challenge,
            Message::Signature(_) => MessageKind::Signature,
            Message::Verdict(_) => MessageKind::Verdict,
            Message::Service(_) => MessageKind::Service,
            Message::Request(_) => MessageKind::Request,
        }
    }
}

} // verus!
