use crate::error::{AuthError, ConfigError, TokenError};
use crate::identity::{AuthClaims, Identity};
use crate::text::same_text;
use jwt_simple::prelude::{HS256Key, JWTClaims, MACLike, UnixTimeStamp, VerificationOptions};
use jwt_simple::JWTError;
use serde_json::Value;
use std::time::{Duration, UNIX_EPOCH};
use vstd::prelude::*;
use vstd::utf8::encode_utf8;

verus! {

/// The lifetime of a token that is issued without one being named: seven
/// days, in seconds.
pub const DEFAULT_TTL_SECS: u64 = 604_800;

/// The latest time, in seconds since the epoch, that a token's timestamps
/// hold without loss.
pub const MAX_TIMESTAMP: u64 = 4_294_967_295;

/// The shortest secret, in bytes, that the signer takes as a key.
pub const MIN_SECRET_BYTES: usize = 12;

/// What a token was found to carry once its tag had been checked, before
/// this library has judged any of it.
#[derive(Clone, Debug, PartialEq, Eq)]
pub struct RawClaims {
    /// The `exp` claim in whole seconds, if the token has one.
    pub expires_at: Option<u64>,
    /// The `user_id` claim, if it is there and is an integer.
    pub user_id: Option<i64>,
    /// The `username` claim, if it is there and is a string.
    pub username: Option<String>,
}

/// `RawClaims` as contracts speak of them.
pub struct RawClaimsView {
    pub expires_at: Option<int>,
    pub user_id: Option<int>,
    pub username: Option<Seq<char>>,
}

impl View for RawClaims {
    type V = RawClaimsView;

    open spec fn view(&self) -> RawClaimsView {
        RawClaimsView {
            expires_at: match self.expires_at {
                Some(t) => Some(t as int),
                None => None,
            },
            user_id: match self.user_id {
                Some(id) => Some(id as int),
                None => None,
            },
            username: match self.username {
                Some(name) => Some(name@),
                None => None,
            },
        }
    }
}

/// Why a token could not be opened.
#[derive(Clone, Copy, Debug, PartialEq, Eq, Structural)]
pub enum OpenFailure {
    /// The authentication tag is not the one that the key gives.
    BadTag,
    /// The tag is right and the expiry lies before the time of opening.
    Expired,
    /// Anything else: not three segments, bad encoding, another algorithm.
    Unreadable,
}

/// The view of what opening a token gave.
pub open spec fn opened_view(opened: Result<RawClaims, OpenFailure>) -> Result<
    RawClaimsView,
    OpenFailure,
> {
    match opened {
        Ok(claims) => Ok(claims@),
        Err(failure) => Err(failure),
    }
}

/// The view of a verification's result.
pub open spec fn verdict_view(verdict: Result<AuthClaims, AuthError>) -> Result<
    Identity,
    AuthError,
> {
    match verdict {
        Ok(claims) => Ok(claims@),
        Err(e) => Err(e),
    }
}

/// The view of an issue's result.
pub open spec fn issue_view(issued: Result<String, TokenError>) -> Result<Seq<char>, TokenError> {
    match issued {
        Ok(token) => Ok(token@),
        Err(e) => Err(e),
    }
}

/// The error type of jwt-simple. It is carried from the signer to the place
/// where it is turned into `TokenError::Signing`, and never read.
#[verifier::external_type_specification]
#[verifier::external_body]
pub struct ExSignerError(jwt_simple::Error);

/// The token that `HS256Key::authenticate` of jwt-simple builds under the key
/// `secret` for claims that hold the two times as `iat` and `exp` (and the
/// first as `nbf` too) and the identity as `user_id` and `username`; `None`
/// where it builds none.
pub uninterp spec fn hs256_token(
    secret: Seq<u8>,
    user_id: int,
    username: Seq<char>,
    issued_at: int,
    expires_at: int,
) -> Option<Seq<char>>;

/// What `HS256Key::verify_token` of jwt-simple makes of `token` under the key
/// `secret` when the time is taken to be `at`, nothing is tolerated past the
/// expiry and timestamps in the future are let through.
pub uninterp spec fn hs256_opened(secret: Seq<u8>, token: Seq<char>, at: int) -> Result<
    RawClaimsView,
    OpenFailure,
>;

/// Calls `HS256Key::authenticate` of jwt-simple on claims built from the
/// arguments. Nothing is proved of the token: the contract only gives it its
/// name, `hs256_token`, which rests on the signer computing from its
/// arguments alone. It reads no clock: the times are the ones handed in.
#[verifier::external_body]
fn sign_hs256(secret: &[u8], user_id: i32, username: &str, issued_at: u64, expires_at: u64) -> (r:
    Result<String, jwt_simple::Error>)
    ensures
        match r {
            Ok(token) => hs256_token(
                secret@,
                user_id as int,
                username@,
                issued_at as int,
                expires_at as int,
            ) == Some(token@),
            Err(_) => hs256_token(
                secret@,
                user_id as int,
                username@,
                issued_at as int,
                expires_at as int,
            ) is None,
        },
{
    let claims = JWTClaims {
        issued_at: Some(UnixTimeStamp::from_secs(issued_at)),
        expires_at: Some(UnixTimeStamp::from_secs(expires_at)),
        invalid_before: Some(UnixTimeStamp::from_secs(issued_at)),
        issuer: None,
        subject: None,
        audiences: None,
        jwt_id: None,
        nonce: None,
        custom: Value::from_iter([("user_id", Value::from(user_id)), ("username", Value::from(username))]),
    };
    HS256Key::from_bytes(secret).authenticate(claims)
}

/// Calls `HS256Key::verify_token` of jwt-simple with the time set to `at`,
/// no tolerance, and timestamps in the future accepted, and hands out the
/// three claims that this library reads. Nothing is proved of the outcome:
/// the contract only gives it its name, `hs256_opened`. Of the verifier's
/// errors it tells two apart, a tag that does not match and an expiry that
/// has passed; every other one is `Unreadable`.
#[verifier::external_body]
fn open_hs256(secret: &[u8], token: &str, at: u64) -> (r: Result<RawClaims, OpenFailure>)
    ensures
        opened_view(r) == hs256_opened(secret@, token@, at as int),
{
    let options = VerificationOptions { artificial_time: Some(UnixTimeStamp::from_secs(at)), time_tolerance: None, accept_future: true, ..Default::default() };
    match HS256Key::from_bytes(secret).verify_token::<Value>(token, Some(options)) {
        Ok(c) => Ok(RawClaims {
            expires_at: c.expires_at.as_ref().map(UnixTimeStamp::as_secs),
            user_id: c.custom["user_id"].as_i64(),
            username: c.custom["username"].as_str().map(String::from),
        }),
        Err(e) => Err(match e.downcast_ref::<JWTError>() {
            Some(JWTError::InvalidAuthenticationTag) => OpenFailure::BadTag,
            Some(JWTError::TokenHasExpired) => OpenFailure::Expired,
            _ => OpenFailure::Unreadable,
        }),
    }
}

/// Calls `SystemTime::elapsed` of std on the epoch: the seconds that the
/// system clock counts since 1970, or `None` where the clock is set before
/// it. Nothing is known of the number.
#[verifier::external_body]
fn seconds_since_epoch() -> (now: Option<u64>) {
    UNIX_EPOCH.elapsed().ok().as_ref().map(Duration::as_secs)
}

/// The time by the system clock, in seconds since the epoch. A clock set
/// before the epoch reads as the epoch.
pub fn unix_now() -> (now: u64) {
    time_of(seconds_since_epoch())
}

/// The time that a reading of the clock stands for: the reading itself, and
/// the epoch where the clock could not be read because it is set before the
/// epoch.
pub open spec fn spec_time_of(reading: Option<u64>) -> u64 {
    match reading {
        Some(seconds) => seconds,
        None => 0,
    }
}

/// Turns a reading of the clock into a time: see `spec_time_of`.
pub fn time_of(reading: Option<u64>) -> (now: u64)
    ensures
        now == spec_time_of(reading),
{
    match reading {
        Some(seconds) => seconds,
        None => 0,
    }
}

/// What verification makes of an opened token at the time `now`.
///
/// A token that could not be opened is turned away for the reason it gave.
/// One that was opened must carry a user id that fits `i32` and a username,
/// else it is malformed. After that only the expiry counts: the token is
/// expired if and only if it has an expiry and `now` is later. A token
/// without an expiry never expires.
pub open spec fn spec_judge(opened: Result<RawClaimsView, OpenFailure>, now: int) -> Result<
    Identity,
    AuthError,
> {
    match opened {
        Err(OpenFailure::BadTag) => Err(AuthError::BadSignature),
        Err(OpenFailure::Expired) => Err(AuthError::Expired),
        Err(OpenFailure::Unreadable) => Err(AuthError::Malformed),
        Ok(claims) => {
            if claims.user_id is None || claims.username is None {
                Err(AuthError::Malformed)
            } else if claims.user_id->0 < i32::MIN || claims.user_id->0 > i32::MAX {
                Err(AuthError::Malformed)
            } else if claims.expires_at is Some && now > claims.expires_at->0 {
                Err(AuthError::Expired)
            } else {
                Ok(Identity { user_id: claims.user_id->0, username: claims.username->0 })
            }
        },
    }
}

/// Judges an opened token at the time `now`: see `spec_judge`.
pub fn judge(opened: Result<RawClaims, OpenFailure>, now: u64) -> (verdict: Result<
    AuthClaims,
    AuthError,
>)
    ensures
        verdict_view(verdict) == spec_judge(opened_view(opened), now as int),
{
    match opened {
        Err(OpenFailure::BadTag) => Err(AuthError::BadSignature),
        Err(OpenFailure::Expired) => Err(AuthError::Expired),
        Err(OpenFailure::Unreadable) => Err(AuthError::Malformed),
        Ok(claims) => {
            let RawClaims { expires_at, user_id, username } = claims;
            match (user_id, username) {
                (Some(id), Some(name)) => {
                    if id < -2_147_483_648i64 || id > 2_147_483_647i64 {
                        return Err(AuthError::Malformed);
                    }
                    match expires_at {
                        Some(deadline) => {
                            if now > deadline {
                                return Err(AuthError::Expired);
                            }
                        },
                        None => {},
                    }
                    Ok(AuthClaims { user_id: id as i32, username: name })
                },
                _ => Err(AuthError::Malformed),
            }
        },
    }
}

/// What `Authentication::new` makes of a configured secret: the key, which
/// is the secret's text in UTF-8, or the reason why there is none.
pub open spec fn spec_configure(secret: Option<Seq<char>>) -> Result<Seq<u8>, ConfigError> {
    match secret {
        None => Err(ConfigError::MissingSecret),
        Some(text) => if encode_utf8(text).len() < MIN_SECRET_BYTES {
            Err(ConfigError::WeakSecret)
        } else {
            Ok(encode_utf8(text))
        },
    }
}

/// The view of a secret that may not be configured.
pub open spec fn secret_view(secret: Option<&str>) -> Option<Seq<char>> {
    match secret {
        Some(text) => Some(text@),
        None => None,
    }
}

/// The view of a set-up's result.
pub open spec fn configured_view(made: Result<Authentication, ConfigError>) -> Result<
    Seq<u8>,
    ConfigError,
> {
    match made {
        Ok(auth) => Ok(auth@),
        Err(e) => Err(e),
    }
}

/// The claims of a token that carries `who` and expires at `expires_at`.
pub open spec fn claims_for(who: Identity, expires_at: int) -> RawClaimsView {
    RawClaimsView {
        expires_at: Some(expires_at),
        user_id: Some(who.user_id),
        username: Some(who.username),
    }
}

/// True if `token`, once its tag was checked under `secret`, is found to
/// carry just `who` and the expiry `expires_at`.
pub open spec fn opens_to(
    secret: Seq<u8>,
    token: Seq<char>,
    who: Identity,
    expires_at: int,
) -> bool {
    hs256_opened(secret, token, 0) == Ok::<_, OpenFailure>(claims_for(who, expires_at))
}

/// What issuing a token gives: an error where the expiry `now + ttl` lies
/// beyond `MAX_TIMESTAMP`; else the signer's token for the identity, issued at
/// `now` and expiring at `now + ttl`. No token is handed out that would not
/// open to what was put into it: where the signer built none the error is
/// `Signing`, where it built one that does not, `Unverifiable`.
pub open spec fn spec_issue(
    secret: Seq<u8>,
    user_id: int,
    username: Seq<char>,
    now: int,
    ttl: int,
) -> Result<Seq<char>, TokenError> {
    if now + ttl > MAX_TIMESTAMP {
        Err(TokenError::TimeOutOfRange)
    } else {
        match hs256_token(secret, user_id, username, now, now + ttl) {
            None => Err(TokenError::Signing),
            Some(token) => if opens_to(secret, token, Identity { user_id, username }, now + ttl) {
                Ok(token)
            } else {
                Err(TokenError::Unverifiable)
            },
        }
    }
}

/// Tells whether what a token opened to is just the identity and the expiry.
fn carries(
    opened: &Result<RawClaims, OpenFailure>,
    user_id: i32,
    username: &str,
    expires_at: u64,
) -> (yes: bool)
    ensures
        yes == (opened_view(*opened) == Ok::<_, OpenFailure>(
            claims_for(
                Identity { user_id: user_id as int, username: username@ },
                expires_at as int,
            ),
        )),
{
    match opened {
        Ok(claims) => {
            let same_expiry = match claims.expires_at {
                Some(t) => t == expires_at,
                None => false,
            };
            let same_id = match claims.user_id {
                Some(id) => id == user_id as i64,
                None => false,
            };
            let same_name = match &claims.username {
                Some(name) => same_text(name.as_str(), username),
                None => false,
            };
            same_expiry && same_id && same_name
        },
        Err(_) => false,
    }
}

/// What verifying `token` at the time `now` gives. The token is opened as of
/// time zero, at which no expiry has passed, so that the tag and the form
/// are the signer's to check and the expiry is `spec_judge`'s.
pub open spec fn spec_verify(secret: Seq<u8>, token: Seq<char>, now: int) -> Result<
    Identity,
    AuthError,
> {
    spec_judge(hs256_opened(secret, token, 0), now)
}

/// The token service: issues and verifies tokens under one secret, which it
/// holds from construction on and never changes.
pub struct Authentication {
    secret: Vec<u8>,
}

impl View for Authentication {
    type V = Seq<u8>;

    /// The bytes of the secret.
    closed spec fn view(&self) -> Seq<u8> {
        self.secret@
    }
}

impl Authentication {
    #[verifier::type_invariant]
    spec fn well_formed(self) -> bool {
        self.secret@.len() >= MIN_SECRET_BYTES
    }

    /// Sets the service up from the configured secret, or says why not: no
    /// secret, or one of fewer than `MIN_SECRET_BYTES` bytes.
    pub fn new(secret: Option<&str>) -> (made: Result<Authentication, ConfigError>)
        ensures
            configured_view(made) == spec_configure(secret_view(secret)),
    {
        match secret {
            None => Err(ConfigError::MissingSecret),
            Some(text) => {
                let bytes = text.as_bytes_vec();
                if bytes.len() < MIN_SECRET_BYTES {
                    Err(ConfigError::WeakSecret)
                } else {
                    Ok(Authentication { secret: bytes })
                }
            },
        }
    }

    /// The length of the key in bytes, which is never under
    /// `MIN_SECRET_BYTES`.
    pub fn key_len(&self) -> (len: usize)
        ensures
            len == self@.len(),
            len >= MIN_SECRET_BYTES,
    {
        proof {
            use_type_invariant(self);
        }
        self.secret.len()
    }

    /// Issues a token for the identity at the time `now`, to expire `ttl`
    /// seconds later. The token is opened again before it is handed out, so
    /// every token that comes out of here verifies as the identity until it
    /// expires.
    pub fn create_token_at(&self, user_id: i32, username: &str, now: u64, ttl: u64) -> (issued:
        Result<String, TokenError>)
        ensures
            issue_view(issued) == spec_issue(
                self@,
                user_id as int,
                username@,
                now as int,
                ttl as int,
            ),
            issued matches Ok(token) ==> opens_to(
                self@,
                token@,
                Identity { user_id: user_id as int, username: username@ },
                now + ttl,
            ),
    {
        let expires_at = match now.checked_add(ttl) {
            Some(t) => t,
            None => {
                return Err(TokenError::TimeOutOfRange);
            },
        };
        if expires_at > MAX_TIMESTAMP {
            return Err(TokenError::TimeOutOfRange);
        }
        let token = match sign_hs256(self.secret.as_slice(), user_id, username, now, expires_at) {
            Ok(token) => token,
            Err(_) => {
                return Err(TokenError::Signing);
            },
        };
        let opened = open_hs256(self.secret.as_slice(), token.as_str(), 0);
        if carries(&opened, user_id, username, expires_at) {
            Ok(token)
        } else {
            Err(TokenError::Unverifiable)
        }
    }

    /// Issues a token for the identity by the system clock, to expire after
    /// `DEFAULT_TTL_SECS`. Whatever the clock says, the result is what
    /// `create_token_at` gives for that time.
    pub fn create_token(&self, user_id: i32, username: &str) -> (issued: Result<String, TokenError>)
        ensures
            exists|now: int|
                0 <= now <= u64::MAX && issue_view(issued) == #[trigger] spec_issue(
                    self@,
                    user_id as int,
                    username@,
                    now,
                    DEFAULT_TTL_SECS as int,
                ),
            issued matches Ok(token) ==> exists|expires_at: int| #[trigger]
                opens_to(
                    self@,
                    token@,
                    Identity { user_id: user_id as int, username: username@ },
                    expires_at,
                ),
    {
        self.create_token_at(user_id, username, unix_now(), DEFAULT_TTL_SECS)
    }

    /// Verifies `token` at the time `now` and hands out the identity it
    /// carries, or the reason why it does not count.
    pub fn verify_token_at(&self, token: &str, now: u64) -> (verdict: Result<AuthClaims, AuthError>)
        ensures
            verdict_view(verdict) == spec_verify(self@, token@, now as int),
            verdict is Err ==> verdict->Err_0.is_token_fault(),
    {
        judge(open_hs256(self.secret.as_slice(), token, 0), now)
    }

    /// Verifies `token` by the system clock. Whatever the clock says, the
    /// result is what `verify_token_at` gives for that time.
    pub fn verify_token(&self, token: &str) -> (verdict: Result<AuthClaims, AuthError>)
        ensures
            exists|now: int|
                0 <= now <= u64::MAX && verdict_view(verdict) == #[trigger] spec_verify(
                    self@,
                    token@,
                    now,
                ),
            verdict is Err ==> verdict->Err_0.is_token_fault(),
    {
        self.verify_token_at(token, unix_now())
    }
}

} // verus!
