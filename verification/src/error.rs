//! The errors that connections, handshakes and transactions report.

use vstd::prelude::*;

verus! {

/// A handler got an action that it did not expect or does not support.
#[derive(Debug, Clone)]
pub enum ConnectionActionError {
    UnexpectedActionError { expected: String, recieved: String, action: String, service: String },
    UnsupportedActionError { recieved: String, service: String },
}

/// The core cannot start the requested service.
#[derive(Debug, Clone, Copy, PartialEq, Eq, Structural)]
pub enum InitiationError {
    ServiceNotSupported,
}

/// A peer could not prove who it is.
#[derive(Debug, Clone)]
pub enum AuthenticationError {
    ClientFailedAuthentication { client: String },
    AuthenticationFailed,
    ServiceNotRegistered { name: String },
}

/// A peer asked for something that its permissions do not allow.
#[derive(Debug, Clone)]
pub enum AuthorizationError {
    ClientFailedAuthorization { client: String, action: String, service: String },
    AuthorizationFailed,
}

/// A transaction with a service failed.
#[derive(Debug, Clone)]
pub enum TransactionError {
    ClientFailedAuthorization { client: String, action: String, service: String },
    AuthorizationFailed,
    SerializeToWriterFailed,
}

/// `'` + `s` + `'`, the way messages quote names.
pub open spec fn quoted(s: Seq<char>) -> Seq<char> {
    "'"@ + s + "'"@
}

fn push_quoted(out: &mut String, s: &String)
    ensures
        final(out)@ == old(out)@ + quoted(s@),
{
    out.append("'");
    out.append(s.as_str());
    out.append("'");
}

/// The message of a failed authorization of `client` for `action` on `service`.
pub open spec fn failed_authorization_text(client: Seq<char>, action: Seq<char>, service: Seq<char>) -> Seq<char> {
    quoted(client) + " failed authorization for "@ + quoted(action) + " action for "@ + quoted(service)
        + " service."@
}

fn failed_authorization_message(client: &String, action: &String, service: &String) -> (r: String)
    ensures
        r@ == failed_authorization_text(client@, action@, service@),
{
    let mut r = String::new();
    push_quoted(&mut r, client);
    r.append(" failed authorization for ");
    push_quoted(&mut r, action);
    r.append(" action for ");
    push_quoted(&mut r, service);
    r.append(" service.");
    proof {
        assert(r@ =~= failed_authorization_text(client@, action@, service@));
    }
    r
}

impl ConnectionActionError {
    /// The text that the error prints.
    pub open spec fn text(&self) -> Seq<char> {
        match self {
            ConnectionActionError::UnexpectedActionError { expected, recieved, action, service } =>
                "Expected "@ + quoted(expected@) + " got "@ + quoted(recieved@) + " while waiting to "@
                    + quoted(action@) + " item to "@ + quoted(service@) + "."@,
            ConnectionActionError::UnsupportedActionError { recieved, service } =>
                quoted(recieved@) + " not supported for "@ + quoted(service@) + " service."@,
        }
    }

    /// The text that the error prints.
    pub fn to_string(&self) -> (r: String)
        ensures
            r@ == self.text(),
    {
        let mut r = String::new();
        match self {
            ConnectionActionError::UnexpectedActionError { expected, recieved, action, service } => {
                r.append("Expected ");
                push_quoted(&mut r, expected);
                r.append(" got ");
                push_quoted(&mut r, recieved);
                r.append(" while waiting to ");
                push_quoted(&mut r, action);
                r.append(" item to ");
                push_quoted(&mut r, service);
                r.append(".");
            },
            ConnectionActionError::UnsupportedActionError { recieved, service } => {
                push_quoted(&mut r, recieved);
                r.append(" not supported for ");
                push_quoted(&mut r, service);
                r.append(" service.");
            },
        }
        proof {
            assert(r@ =~= self.text());
        }
        r
    }
}

impl InitiationError {
    /// The text that the error prints.
    pub fn to_string(&self) -> (r: String)
        ensures
            r@ == "Service not supported"@,
    {
        String::from_str("Service not supported")
    }
}

impl AuthenticationError {
    /// The text that the error prints.
    pub open spec fn text(&self) -> Seq<char> {
        match self {
            AuthenticationError::ClientFailedAuthentication { client } => quoted(client@) + " failed to authenticate."@,
            AuthenticationError::AuthenticationFailed => "Failed to authenticate."@,
            AuthenticationError::ServiceNotRegistered { name } => "Service "@ + quoted(name@) + " not registered."@,
        }
    }

    /// The text that the error prints.
    pub fn to_string(&self) -> (r: String)
        ensures
            r@ == self.text(),
    {
        let mut r = String::new();
        match self {
            AuthenticationError::ClientFailedAuthentication { client } => {
                push_quoted(&mut r, client);
                r.append(" failed to authenticate.");
            },
            AuthenticationError::AuthenticationFailed => {
                r.append("Failed to authenticate.");
            },
            AuthenticationError::ServiceNotRegistered { name } => {
                r.append("Service ");
                push_quoted(&mut r, name);
                r.append(" not registered.");
            },
        }
        proof {
            assert(r@ =~= self.text());
        }
        r
    }
}

impl AuthorizationError {
    /// The text that the error prints.
    pub open spec fn text(&self) -> Seq<char> {
        match self {
            AuthorizationError::ClientFailedAuthorization { client, action, service } =>
                failed_authorization_text(client@, action@, service@),
            AuthorizationError::AuthorizationFailed => "Failed to authorize."@,
        }
    }

    /// The text that the error prints.
    pub fn to_string(&self) -> (r: String)
        ensures
            r@ == self.text(),
    {
        match self {
            AuthorizationError::ClientFailedAuthorization { client, action, service } =>
                failed_authorization_message(client, action, service),
            AuthorizationError::AuthorizationFailed => String::from_str("Failed to authorize."),
        }
    }
}

impl TransactionError {
    /// The text that the error prints.
    pub open spec fn text(&self) -> Seq<char> {
        match self {
            TransactionError::ClientFailedAuthorization { client, action, service } =>
                failed_authorization_text(client@, action@, service@),
            TransactionError::AuthorizationFailed => "Failed to authorize."@,
            TransactionError::SerializeToWriterFailed => "Serialize to writer failed."@,
        }
    }

    /// The text that the error prints.
    pub fn to_string(&self) -> (r: String)
        ensures
            r@ == self.text(),
    {
        match self {
            TransactionError::ClientFailedAuthorization { client, action, service } =>
                failed_authorization_message(client, action, service),
            TransactionError::AuthorizationFailed => String::from_str("Failed to authorize."),
            TransactionError::SerializeToWriterFailed => String::from_str("Serialize to writer failed."),
        }
    }
}

} // verus!

verus! {

/// Why a handshake or a transaction with a peer stopped.
#[derive(Debug, Clone)]
pub enum ProtocolError {
    Authentication(AuthenticationError),
    Authorization(AuthorizationError),
    Initiation(InitiationError),
    Transaction(TransactionError),
    /// The registered public key is not one that openssl can read.
    InvalidKey,
    /// openssl failed while signing or checking a signature.
    Crypto,
    /// The peer sent something that the protocol does not expect at this point.
    UnexpectedMessage,
}

} // verus!
