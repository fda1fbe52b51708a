use crate::accounts::{spec_grant, spec_login, spec_register, InsertionView, UserLookupView};
use crate::error::{AuthError, TokenError};
use crate::identity::Identity;
use crate::models::{AuthResponseView, UserView};
use crate::password::bcrypt_matches;
use crate::reply::ReplyView;
use crate::middleware::{
    bypasses, is_ignored, preflight_method, presents, spec_call, DecisionView, HeaderView,
    RequestHeadView,
};
use crate::text::{bearer_scheme, spec_bearer_token};
use crate::token::{
    claims_for, hs256_opened, opens_to, spec_issue, spec_judge, spec_verify, OpenFailure,
    RawClaimsView, DEFAULT_TTL_SECS,
};
use vstd::prelude::*;

verus! {

/// Claims that carry an identity and an expiry are judged by the expiry
/// alone: up to and including it they give the identity unchanged, after it
/// they are expired.
pub proof fn lemma_judged_by_expiry(who: Identity, expires_at: int, now: int)
    requires
        i32::MIN <= who.user_id <= i32::MAX,
    ensures
        now <= expires_at ==> spec_judge(Ok(claims_for(who, expires_at)), now) == Ok::<
            _,
            AuthError,
        >(who),
        now > expires_at ==> spec_judge(Ok(claims_for(who, expires_at)), now) == Err::<
            Identity,
            _,
        >(AuthError::Expired),
{
}

/// Every issued token opens to what was put into it.
pub proof fn lemma_issued_token_opens(
    secret: Seq<u8>,
    who: Identity,
    issued_at: int,
    ttl: int,
    token: Seq<char>,
)
    requires
        spec_issue(secret, who.user_id, who.username, issued_at, ttl) == Ok::<_, TokenError>(token),
    ensures
        opens_to(secret, token, who, issued_at + ttl),
{
}

/// Round trip. A token that was issued for `who` at `issued_at` with the
/// lifetime `ttl` verifies as `who`, unchanged, at every time up to and
/// including its expiry.
pub proof fn lemma_issued_token_verifies(
    secret: Seq<u8>,
    who: Identity,
    issued_at: int,
    ttl: int,
    token: Seq<char>,
    now: int,
)
    requires
        i32::MIN <= who.user_id <= i32::MAX,
        spec_issue(secret, who.user_id, who.username, issued_at, ttl) == Ok::<_, TokenError>(token),
        now <= issued_at + ttl,
    ensures
        spec_verify(secret, token, now) == Ok::<_, AuthError>(who),
{
}

/// Expiry. A token that was issued for `who` at `issued_at` with the
/// lifetime `ttl` is expired at every time after `issued_at + ttl`.
pub proof fn lemma_issued_token_expires(
    secret: Seq<u8>,
    who: Identity,
    issued_at: int,
    ttl: int,
    token: Seq<char>,
    now: int,
)
    requires
        i32::MIN <= who.user_id <= i32::MAX,
        spec_issue(secret, who.user_id, who.username, issued_at, ttl) == Ok::<_, TokenError>(token),
        now > issued_at + ttl,
    ensures
        spec_verify(secret, token, now) == Err::<Identity, _>(AuthError::Expired),
{
}

/// Two tokens that were issued for different identities, or with different
/// expiries, are different tokens.
pub proof fn lemma_issued_tokens_differ(
    secret: Seq<u8>,
    who: Identity,
    issued_at: int,
    ttl: int,
    other: Identity,
    other_issued_at: int,
    other_ttl: int,
    token: Seq<char>,
)
    requires
        spec_issue(secret, who.user_id, who.username, issued_at, ttl) == Ok::<_, TokenError>(token),
        spec_issue(secret, other.user_id, other.username, other_issued_at, other_ttl) == Ok::<
            _,
            TokenError,
        >(token),
    ensures
        who == other,
        issued_at + ttl == other_issued_at + other_ttl,
{
}

/// A token that does not open never verifies, at any time. One whose tag
/// does not match is a bad signature, one that cannot be read is malformed.
pub proof fn lemma_unopened_token_never_verifies(secret: Seq<u8>, token: Seq<char>, now: int)
    requires
        hs256_opened(secret, token, 0) is Err,
    ensures
        spec_verify(secret, token, now) is Err,
        hs256_opened(secret, token, 0) == Err::<RawClaimsView, _>(OpenFailure::BadTag)
            ==> spec_verify(secret, token, now) == Err::<Identity, _>(AuthError::BadSignature),
        hs256_opened(secret, token, 0) == Err::<RawClaimsView, _>(OpenFailure::Unreadable)
            ==> spec_verify(secret, token, now) == Err::<Identity, _>(AuthError::Malformed),
{
}

/// A verdict never depends on the time other than through the expiry: what
/// verifies at one time verifies as the same identity at every earlier one.
pub proof fn lemma_verdict_holds_earlier(
    secret: Seq<u8>,
    token: Seq<char>,
    now: int,
    earlier: int,
)
    requires
        earlier <= now,
        spec_verify(secret, token, now) is Ok,
    ensures
        spec_verify(secret, token, earlier) == spec_verify(secret, token, now),
{
}

/// A request whose path begins with an open route is let through, whatever
/// its method and whether or not it has an `Authorization` header, and no
/// identity is attached to it.
pub proof fn lemma_ignored_path_is_allowed(
    routes: Seq<Seq<char>>,
    secret: Seq<u8>,
    request: RequestHeadView,
    now: int,
    route: int,
)
    requires
        0 <= route < routes.len(),
        routes[route].is_prefix_of(request.path),
    ensures
        is_ignored(routes, request.path),
        spec_call(routes, secret, request, now) == DecisionView::Allow(None),
{
}

/// A preflight request is let through, whatever its path and header.
pub proof fn lemma_preflight_is_allowed(
    routes: Seq<Seq<char>>,
    secret: Seq<u8>,
    request: RequestHeadView,
    now: int,
)
    requires
        request.method == preflight_method(),
    ensures
        spec_call(routes, secret, request, now) == DecisionView::Allow(None),
{
}

/// A request without an `Authorization` header whose path begins with no
/// open route, and that is no preflight request, is answered 401 with the
/// reason "Authorization header missing".
pub proof fn lemma_missing_header_is_rejected(
    routes: Seq<Seq<char>>,
    secret: Seq<u8>,
    request: RequestHeadView,
    now: int,
)
    requires
        !is_ignored(routes, request.path),
        request.method != preflight_method(),
        request.authorization == HeaderView::Absent,
    ensures
        spec_call(routes, secret, request, now) == DecisionView::Reject(AuthError::MissingHeader),
        AuthError::MissingHeader.spec_status() == 401,
        AuthError::MissingHeader.spec_reason() == "Authorization header missing"@,
{
}

/// The header that is made of the scheme and a token presents just that
/// token, whatever the token is.
pub proof fn lemma_bearer_header_presents_token(token: Seq<char>)
    ensures
        spec_bearer_token(bearer_scheme() + token) == Some(token),
{
    let header = bearer_scheme() + token;
    assert(bearer_scheme() =~= header.subrange(0, bearer_scheme().len() as int));
    assert(header.skip(bearer_scheme().len() as int) =~= token);
}

/// On a route that is not open, a request that presents a token is let
/// through just when the token verifies at that time, and then with the
/// identity that the token verifies as; else it is answered 401 with the
/// reason "Invalid or expired token", whatever made the token fail.
pub proof fn lemma_presented_token_decides(
    routes: Seq<Seq<char>>,
    secret: Seq<u8>,
    request: RequestHeadView,
    token: Seq<char>,
    now: int,
)
    requires
        !bypasses(routes, request),
        presents(request, token),
    ensures
        spec_call(routes, secret, request, now) == match spec_verify(secret, token, now) {
            Ok(who) => DecisionView::Allow(Some(who)),
            Err(_) => DecisionView::Reject(AuthError::Invalid),
        },
        AuthError::Invalid.spec_status() == 401,
        AuthError::Invalid.spec_reason() == "Invalid or expired token"@,
{
}

/// On a route that is not open, a request whose header is there and does
/// not open with the scheme is answered 401 with the reason "Invalid
/// authorization format".
pub proof fn lemma_other_scheme_is_rejected(
    routes: Seq<Seq<char>>,
    secret: Seq<u8>,
    request: RequestHeadView,
    value: Seq<char>,
    now: int,
)
    requires
        !bypasses(routes, request),
        request.authorization == HeaderView::Text(value),
        !bearer_scheme().is_prefix_of(value),
    ensures
        spec_call(routes, secret, request, now) == DecisionView::Reject(AuthError::BadFormat),
        AuthError::BadFormat.spec_status() == 401,
        AuthError::BadFormat.spec_reason() == "Invalid authorization format"@,
{
}

/// The decision for a request that presents no token does not depend on the
/// key nor on the time.
pub proof fn lemma_decision_without_token_is_fixed(
    routes: Seq<Seq<char>>,
    request: RequestHeadView,
    secret: Seq<u8>,
    now: int,
    other_secret: Seq<u8>,
    other_now: int,
)
    requires
        bypasses(routes, request) || forall|token: Seq<char>| !presents(request, token),
    ensures
        spec_call(routes, secret, request, now) == spec_call(
            routes,
            other_secret,
            request,
            other_now,
        ),
{
    if !bypasses(routes, request) {
        if let HeaderView::Text(value) = request.authorization {
            if let Some(token) = spec_bearer_token(value) {
                assert(presents(request, token));
            }
        }
    }
}

/// The identity that a user is authenticated as.
pub open spec fn identity_of_user(user: UserView) -> Identity {
    Identity { user_id: user.id, username: user.username }
}

/// A login is answered 200 only for a user that is there and whose stored
/// hash the password matches, and then with that user's id and name.
pub proof fn lemma_login_grants_only_on_match(
    secret: Seq<u8>,
    lookup: UserLookupView,
    password: Seq<char>,
    now: int,
)
    requires
        spec_login(secret, lookup, password, now).status() == 200,
    ensures
        ({
            &&& lookup matches UserLookupView::Found(user)
            &&& bcrypt_matches(password, user.password_hash) == Some(true)
            &&& spec_login(secret, lookup, password, now) matches ReplyView::Json { payload, .. }
            &&& payload.user_id == user.id
            &&& payload.username == user.username
        }),
{
}

/// A login with a password that the stored hash matches is never answered
/// 401: it is answered with a token for that user, or 500 where none could
/// be issued. So whoever registered with a password can log in with it.
pub proof fn lemma_matching_password_is_granted(
    secret: Seq<u8>,
    user: UserView,
    password: Seq<char>,
    now: int,
)
    requires
        bcrypt_matches(password, user.password_hash) == Some(true),
    ensures
        spec_login(secret, UserLookupView::Found(user), password, now) == spec_grant(
            user,
            spec_issue(secret, user.id, user.username, now, DEFAULT_TTL_SECS as int),
        ),
        spec_login(secret, UserLookupView::Found(user), password, now).status() != 401,
{
}

/// The token that a login or a registration answers with lets its holder
/// through the middleware as that user: on every route that is not open, a
/// request that presents it is let through with the user's identity, at
/// every time up to `DEFAULT_TTL_SECS` after the login.
pub proof fn lemma_granted_token_is_let_through(
    secret: Seq<u8>,
    user: UserView,
    granted_at: int,
    reply: ReplyView<AuthResponseView>,
    routes: Seq<Seq<char>>,
    request: RequestHeadView,
    now: int,
)
    requires
        i32::MIN <= user.id <= i32::MAX,
        reply.status() == 200,
        (exists|password: Seq<char>|
            reply == #[trigger] spec_login(
                secret,
                UserLookupView::Found(user),
                password,
                granted_at,
            )) || reply == spec_register(secret, InsertionView::Created(user), granted_at),
        ({
            &&& reply matches ReplyView::Json { payload, .. }
            &&& presents(request, payload.token)
        }),
        !bypasses(routes, request),
        now <= granted_at + DEFAULT_TTL_SECS,
    ensures
        spec_call(routes, secret, request, now) == DecisionView::Allow(
            Some(identity_of_user(user)),
        ),
{
    let token = reply->Json_payload.token;
    lemma_issued_token_verifies(
        secret,
        identity_of_user(user),
        granted_at,
        DEFAULT_TTL_SECS as int,
        token,
        now,
    );
}

/// Adding an open route never closes a path: what was let through without
/// authentication before is let through after.
pub proof fn lemma_more_routes_allow_more(
    routes: Seq<Seq<char>>,
    route: Seq<char>,
    request: RequestHeadView,
)
    requires
        bypasses(routes, request),
    ensures
        bypasses(routes.push(route), request),
{
    if is_ignored(routes, request.path) {
        let i = choose|i: int|
            0 <= i < routes.len() && #[trigger] routes[i].is_prefix_of(request.path);
        assert(routes.push(route)[i].is_prefix_of(request.path));
    }
}

} // verus!
