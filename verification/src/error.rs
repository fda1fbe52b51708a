use vstd::prelude::*;

verus! {

/// Why a request, or the token it carried, was turned away.
///
/// The first two are found by the middleware before any token is looked at, the
/// next three by the token service, and `Invalid` is what the middleware reports to
/// the client for any of those three.
#[derive(Clone, Copy, Debug, PartialEq, Eq, Structural)]
pub enum AuthError {
    /// The request carries no `Authorization` header.
    MissingHeader,
    /// The header is there but is not of the form `Bearer <token>`.
    BadFormat,
    /// The token cannot be read, or lacks the identity it should carry.
    Malformed,
    /// The token's authentication tag does not match its contents.
    BadSignature,
    /// The token was read and authenticated, and its expiry has passed.
    Expired,
    /// The token did not verify; the middleware gives the client no finer reason.
    Invalid,
}

impl AuthError {
    /// The HTTP status that answers this error: always 401.
    pub open spec fn spec_status(self) -> int {
        401
    }

    /// The reason given to the client.
    pub open spec fn spec_reason(self) -> Seq<char> {
        match self {
            AuthError::MissingHeader => "Authorization header missing"@,
            AuthError::BadFormat => "Invalid authorization format"@,
            AuthError::Malformed => "Invalid or expired token"@,
            AuthError::BadSignature => "Invalid or expired token"@,
            AuthError::Expired => "Invalid or expired token"@,
            AuthError::Invalid => "Invalid or expired token"@,
        }
    }

    /// True of the three errors that the token service reports.
    pub open spec fn is_token_fault(self) -> bool {
        self == AuthError::Malformed || self == AuthError::BadSignature || self
            == AuthError::Expired
    }

    pub fn status(self) -> (code: u16)
        ensures
            code == self.spec_status(),
    {
        401
    }

    pub fn reason(self) -> (text: &'static str)
        ensures
            text@ == self.spec_reason(),
    {
        match self {
            AuthError::MissingHeader => "Authorization header missing",
            AuthError::BadFormat => "Invalid authorization format",
            AuthError::Malformed => "Invalid or expired token",
            AuthError::BadSignature => "Invalid or expired token",
            AuthError::Expired => "Invalid or expired token",
            AuthError::Invalid => "Invalid or expired token",
        }
    }
}

/// Why no token service could be set up from the configured secret.
#[derive(Clone, Copy, Debug, PartialEq, Eq, Structural)]
pub enum ConfigError {
    /// No secret was configured.
    MissingSecret,
    /// The secret is shorter than the signing key has to be.
    WeakSecret,
}

/// Why no token was issued.
#[derive(Clone, Copy, Debug, PartialEq, Eq, Structural)]
pub enum TokenError {
    /// The issue time or the expiry lies beyond what a token's timestamps
    /// can hold.
    TimeOutOfRange,
    /// The signer did not produce a token.
    Signing,
    /// The signer produced a token that does not open to what was put into
    /// it, so it is not handed out.
    Unverifiable,
}

impl TokenError {
    pub open spec fn spec_message(self) -> Seq<char> {
        match self {
            TokenError::TimeOutOfRange => "Error creating token: expiry out of range"@,
            TokenError::Signing => "Error creating token: signing failed"@,
            TokenError::Unverifiable => "Error creating token: token does not verify"@,
        }
    }

    pub fn message(self) -> (text: &'static str)
        ensures
            text@ == self.spec_message(),
    {
        match self {
            TokenError::TimeOutOfRange => "Error creating token: expiry out of range",
            TokenError::Signing => "Error creating token: signing failed",
            TokenError::Unverifiable => "Error creating token: token does not verify",
        }
    }
}

} // verus!
