use vstd::prelude::*;

verus! {

/// The errors that can occur while talking to the puppet backend.
#[derive(Clone, Debug)]
pub enum PuppetError {
    InvalidToken,
    Network(String),
    Unsupported(String),
    UnknownPayloadType,
    UnknownMessageType,
}

/// Human-readable text of a puppet error.
pub open spec fn puppet_error_text(e: PuppetError) -> Seq<char> {
    match e {
        PuppetError::InvalidToken => "Invalid token"@,
        PuppetError::Network(reason) => "Network failure, reason: "@ + reason@,
        PuppetError::Unsupported(function) => "Unsupported function: "@ + function@,
        PuppetError::UnknownPayloadType => "Unknown payload type"@,
        PuppetError::UnknownMessageType => "Unknown message type"@,
    }
}

impl PuppetError {
    /// The message shown to a user for this error.
    pub fn to_string(&self) -> (r: String)
        ensures
            r@ == puppet_error_text(*self),
    {
        match self {
            PuppetError::InvalidToken => String::from_str("Invalid token"),
            PuppetError::Network(reason) => {
                let mut s = String::from_str("Network failure, reason: ");
                s.append(reason.as_str());
                s
            },
            PuppetError::Unsupported(function) => {
                let mut s = String::from_str("Unsupported function: ");
                s.append(function.as_str());
                s
            },
            PuppetError::UnknownPayloadType => String::from_str("Unknown payload type"),
            PuppetError::UnknownMessageType => String::from_str("Unknown message type"),
        }
    }
}

/// The errors surfaced by the user-facing operations.
#[derive(Clone, Debug)]
pub enum WechatyError {
    Puppet(PuppetError),
    InvalidOperation(String),
    Maybe(String),
    NotLoggedIn,
    NoPayload,
}

/// Human-readable text of a user-facing error.
pub open spec fn wechaty_error_text(e: WechatyError) -> Seq<char> {
    match e {
        WechatyError::Puppet(inner) => "Puppet error: "@ + puppet_error_text(inner),
        WechatyError::InvalidOperation(op) => "Invalid operation: "@ + op@,
        WechatyError::Maybe(maybe) => "An error may have occurred: "@ + maybe@,
        WechatyError::NotLoggedIn => "User is not logged in"@,
        WechatyError::NoPayload =>
            "Operation cannot be done because the current entity does not have payload due to an unknown previous issue"@,
    }
}

impl WechatyError {
    /// The message shown to a user for this error.
    pub fn to_string(&self) -> (r: String)
        ensures
            r@ == wechaty_error_text(*self),
    {
        match self {
            WechatyError::Puppet(inner) => {
                let mut s = String::from_str("Puppet error: ");
                let t = inner.to_string();
                s.append(t.as_str());
                s
            },
            WechatyError::InvalidOperation(op) => {
                let mut s = String::from_str("Invalid operation: ");
                s.append(op.as_str());
                s
            },
            WechatyError::Maybe(maybe) => {
                let mut s = String::from_str("An error may have occurred: ");
                s.append(maybe.as_str());
                s
            },
            WechatyError::NotLoggedIn => String::from_str("User is not logged in"),
            WechatyError::NoPayload => String::from_str(
                "Operation cannot be done because the current entity does not have payload due to an unknown previous issue",
            ),
        }
    }
}

impl From<PuppetError> for WechatyError {
    fn from(e: PuppetError) -> (r: WechatyError) {
        WechatyError::Puppet(e)
    }
}

impl vstd::std_specs::convert::FromSpecImpl<PuppetError> for WechatyError {
    open spec fn obeys_from_spec() -> bool {
        true
    }

    open spec fn from_spec(v: PuppetError) -> WechatyError {
        WechatyError::Puppet(v)
    }
}

} // verus!
