use crate::error::AuthError;
use crate::identity::{identity_of, AuthClaims, Identity};
use crate::text::{bearer_token, same_text, spec_bearer_token, starts_with};
use crate::token::{spec_verify, unix_now, verdict_view, Authentication};
use vstd::prelude::*;

verus! {

/// The `Authorization` header of a request, as far as it could be read.
#[derive(Clone, Debug, PartialEq, Eq)]
pub enum AuthorizationHeader {
    /// The request has no such header.
    Absent,
    /// The header is there and its value is no text.
    Unreadable,
    /// The header's value.
    Text(String),
}

/// `AuthorizationHeader` as contracts speak of it.
pub enum HeaderView {
    Absent,
    Unreadable,
    Text(Seq<char>),
}

impl View for AuthorizationHeader {
    type V = HeaderView;

    open spec fn view(&self) -> HeaderView {
        match self {
            AuthorizationHeader::Absent => HeaderView::Absent,
            AuthorizationHeader::Unreadable => HeaderView::Unreadable,
            AuthorizationHeader::Text(value) => HeaderView::Text(value@),
        }
    }
}

/// What the middleware reads of a request: nothing else bears on its
/// decision.
#[derive(Clone, Debug, PartialEq, Eq)]
pub struct RequestHead {
    pub method: String,
    pub path: String,
    pub authorization: AuthorizationHeader,
}

/// `RequestHead` as contracts speak of it.
pub struct RequestHeadView {
    pub method: Seq<char>,
    pub path: Seq<char>,
    pub authorization: HeaderView,
}

impl View for RequestHead {
    type V = RequestHeadView;

    open spec fn view(&self) -> RequestHeadView {
        RequestHeadView {
            method: self.method@,
            path: self.path@,
            authorization: self.authorization@,
        }
    }
}

/// Something that can tell which identity a request was authenticated as.
pub trait AuthenticatedRequest {
    /// The identity, if there is one.
    spec fn identity(&self) -> Option<Identity>;

    fn get_auth_claims(&self) -> (claims: Option<AuthClaims>)
        ensures
            identity_of(claims) == self.identity(),
    ;
}

/// The slot in which a request carries its verified identity to the
/// handlers. It is filled when it is made and cannot be written again.
#[derive(Clone, Debug, PartialEq, Eq)]
pub struct RequestContext {
    identity: Option<AuthClaims>,
}

impl View for RequestContext {
    type V = Option<Identity>;

    closed spec fn view(&self) -> Option<Identity> {
        identity_of(self.identity)
    }
}

impl RequestContext {
    /// The context of a request that was let through unauthenticated.
    pub fn anonymous() -> (context: RequestContext)
        ensures
            context@ is None,
    {
        RequestContext { identity: None }
    }

    /// The context of a request whose token verified as `claims`.
    pub fn authenticated(claims: AuthClaims) -> (context: RequestContext)
        ensures
            context@ == Some(claims@),
    {
        RequestContext { identity: Some(claims) }
    }

    pub fn is_authenticated(&self) -> (yes: bool)
        ensures
            yes == self@.is_some(),
    {
        self.identity.is_some()
    }
}

impl AuthenticatedRequest for RequestContext {
    open spec fn identity(&self) -> Option<Identity> {
        self@
    }

    fn get_auth_claims(&self) -> (claims: Option<AuthClaims>) {
        match &self.identity {
            Some(claims) => Some(claims.duplicate()),
            None => None,
        }
    }
}

/// What the middleware decides for a request.
#[derive(Clone, Debug, PartialEq, Eq)]
pub enum Decision {
    /// Hand the request on to the next handler, with this context.
    Allow(RequestContext),
    /// Answer 401 with the error's reason; no handler is called.
    Reject(AuthError),
}

/// `Decision` as contracts speak of it.
pub enum DecisionView {
    Allow(Option<Identity>),
    Reject(AuthError),
}

impl View for Decision {
    type V = DecisionView;

    open spec fn view(&self) -> DecisionView {
        match self {
            Decision::Allow(context) => DecisionView::Allow(context@),
            Decision::Reject(e) => DecisionView::Reject(*e),
        }
    }
}

/// Where a request stands once its method, path and header were looked at.
#[derive(Clone, Debug, PartialEq, Eq)]
pub enum Screening<'a> {
    /// No authentication is asked of it.
    Allow,
    /// It is turned away without a token having been seen.
    Reject(AuthError),
    /// It presents this token, which is still to be verified.
    Verify(&'a str),
}

/// `Screening` as contracts speak of it.
pub enum ScreeningView {
    Allow,
    Reject(AuthError),
    Verify(Seq<char>),
}

impl<'a> View for Screening<'a> {
    type V = ScreeningView;

    open spec fn view(&self) -> ScreeningView {
        match self {
            Screening::Allow => ScreeningView::Allow,
            Screening::Reject(e) => ScreeningView::Reject(*e),
            Screening::Verify(token) => ScreeningView::Verify(token@),
        }
    }
}

/// The texts of a list of routes.
pub open spec fn route_texts(routes: Seq<String>) -> Seq<Seq<char>> {
    Seq::new(routes.len(), |i: int| routes[i]@)
}

/// The method of a CORS preflight request, which is never authenticated.
pub open spec fn preflight_method() -> Seq<char> {
    "OPTIONS"@
}

/// True if `path` begins with one of the `routes`. The test is on
/// characters, not on path segments: the route `/auth` also covers
/// `/authxyz`, and an empty route covers every path.
pub open spec fn is_ignored(routes: Seq<Seq<char>>, path: Seq<char>) -> bool {
    exists|i: int| 0 <= i < routes.len() && #[trigger] routes[i].is_prefix_of(path)
}

/// True if no authentication is asked of the request.
pub open spec fn bypasses(routes: Seq<Seq<char>>, request: RequestHeadView) -> bool {
    request.method == preflight_method() || is_ignored(routes, request.path)
}

/// Where a request stands before any token is verified.
pub open spec fn spec_screen(routes: Seq<Seq<char>>, request: RequestHeadView) -> ScreeningView {
    if bypasses(routes, request) {
        ScreeningView::Allow
    } else {
        match request.authorization {
            HeaderView::Absent => ScreeningView::Reject(AuthError::MissingHeader),
            HeaderView::Unreadable => ScreeningView::Reject(AuthError::BadFormat),
            HeaderView::Text(value) => match spec_bearer_token(value) {
                Some(token) => ScreeningView::Verify(token),
                None => ScreeningView::Reject(AuthError::BadFormat),
            },
        }
    }
}

/// The decision once the token was judged: an identity goes into the
/// request's context, and every failure is reported as `Invalid`.
pub open spec fn spec_conclude(verdict: Result<Identity, AuthError>) -> DecisionView {
    match verdict {
        Ok(identity) => DecisionView::Allow(Some(identity)),
        Err(_) => DecisionView::Reject(AuthError::Invalid),
    }
}

/// The middleware's decision for a request at the time `now`, under the key
/// `secret`.
pub open spec fn spec_call(
    routes: Seq<Seq<char>>,
    secret: Seq<u8>,
    request: RequestHeadView,
    now: int,
) -> DecisionView {
    match spec_screen(routes, request) {
        ScreeningView::Allow => DecisionView::Allow(None),
        ScreeningView::Reject(e) => DecisionView::Reject(e),
        ScreeningView::Verify(token) => spec_conclude(spec_verify(secret, token, now)),
    }
}

/// True if the request's header is of the form `Bearer <token>` with just
/// this token.
pub open spec fn presents(request: RequestHeadView, token: Seq<char>) -> bool {
    request.authorization matches HeaderView::Text(value) && spec_bearer_token(value) == Some(
        token,
    )
}

/// The ways in which a decision can come about. A request is let through
/// without an identity just when no authentication is asked of it, and with
/// one just when it is asked, the header presents a token and the token
/// verifies as that identity at `now`. It is turned away with
/// `MissingHeader` or `BadFormat` for its header alone, and with `Invalid`
/// just when the token it presents does not verify.
pub proof fn lemma_call_outcomes(
    routes: Seq<Seq<char>>,
    secret: Seq<u8>,
    request: RequestHeadView,
    now: int,
)
    ensures
        match spec_call(routes, secret, request, now) {
            DecisionView::Allow(None) => bypasses(routes, request),
            DecisionView::Allow(Some(identity)) => {
                &&& !bypasses(routes, request)
                &&& exists|token: Seq<char>|
                    presents(request, token) && #[trigger] spec_verify(secret, token, now)
                        == Ok::<_, AuthError>(identity)
            },
            DecisionView::Reject(AuthError::MissingHeader) => {
                &&& !bypasses(routes, request)
                &&& request.authorization == HeaderView::Absent
            },
            DecisionView::Reject(AuthError::BadFormat) => {
                &&& !bypasses(routes, request)
                &&& request.authorization != HeaderView::Absent
                &&& forall|token: Seq<char>| !presents(request, token)
            },
            DecisionView::Reject(AuthError::Invalid) => {
                &&& !bypasses(routes, request)
                &&& exists|token: Seq<char>|
                    presents(request, token) && (#[trigger] spec_verify(secret, token, now)) is Err
            },
            DecisionView::Reject(_) => false,
        },
{
    if let HeaderView::Text(value) = request.authorization {
        if let Some(token) = spec_bearer_token(value) {
            assert(presents(request, token));
        }
    }
}

/// Decides once the token was judged: see `spec_conclude`.
pub fn conclude(verdict: Result<AuthClaims, AuthError>) -> (decision: Decision)
    ensures
        decision@ == spec_conclude(verdict_view(verdict)),
{
    match verdict {
        Ok(claims) => Decision::Allow(RequestContext::authenticated(claims)),
        Err(_) => Decision::Reject(AuthError::Invalid),
    }
}

/// The list of routes that are open to everyone, in the order in which they
/// were named. It is put together once, when the server is assembled.
#[derive(Clone, Debug, PartialEq, Eq)]
pub struct AuthMiddleware {
    pub ignore_routes: Vec<String>,
}

impl View for AuthMiddleware {
    type V = Seq<Seq<char>>;

    open spec fn view(&self) -> Seq<Seq<char>> {
        route_texts(self.ignore_routes@)
    }
}

impl AuthMiddleware {
    /// A middleware that lets no path through unauthenticated.
    pub fn new() -> (made: AuthMiddleware)
        ensures
            made@ == Seq::<Seq<char>>::empty(),
    {
        AuthMiddleware { ignore_routes: Vec::new() }
    }

    /// Adds `route` behind the routes that are open already.
    pub fn ignore(self, route: &str) -> (made: AuthMiddleware)
        ensures
            made@ == self@.push(route@),
    {
        let mut routes = self.ignore_routes;
        routes.push(route.to_owned());
        AuthMiddleware { ignore_routes: routes }
    }

    /// The middleware as it serves requests, with the token service it is to
    /// verify by. The list is copied: later changes to `self` do not reach
    /// the service.
    pub fn new_transform(&self, auth: Authentication) -> (service: AuthMiddlewareService)
        ensures
            service@.ignore_routes == self@,
            service@.secret == auth@,
    {
        let mut routes: Vec<String> = Vec::new();
        let mut i: usize = 0;
        while i < self.ignore_routes.len()
            invariant
                i <= self.ignore_routes.len(),
                routes.len() == i,
                forall|j: int| 0 <= j < i ==> routes[j]@ == self.ignore_routes[j]@,
            decreases self.ignore_routes.len() - i,
        {
            routes.push(self.ignore_routes[i].clone());
            i += 1;
        }
        AuthMiddlewareService { auth, ignore_routes: routes }
    }
}

impl Default for AuthMiddleware {
    fn default() -> (made: AuthMiddleware)
        ensures
            made@ == Seq::<Seq<char>>::empty(),
    {
        AuthMiddleware::new()
    }
}

/// The middleware at work: the open routes and the token service, neither
/// of which changes once the service is made.
pub struct AuthMiddlewareService {
    auth: Authentication,
    ignore_routes: Vec<String>,
}

/// `AuthMiddlewareService` as contracts speak of it.
pub struct ServiceView {
    pub ignore_routes: Seq<Seq<char>>,
    pub secret: Seq<u8>,
}

impl View for AuthMiddlewareService {
    type V = ServiceView;

    closed spec fn view(&self) -> ServiceView {
        ServiceView { ignore_routes: route_texts(self.ignore_routes@), secret: self.auth@ }
    }
}

impl AuthMiddlewareService {
    /// Tells whether `path` begins with one of the open routes.
    pub fn is_ignored(&self, path: &str) -> (hit: bool)
        ensures
            hit == is_ignored(self@.ignore_routes, path@),
    {
        let mut i: usize = 0;
        while i < self.ignore_routes.len()
            invariant
                i <= self.ignore_routes.len(),
                forall|j: int| 0 <= j < i ==> !(#[trigger] self@.ignore_routes[j]).is_prefix_of(path@),
            decreases self.ignore_routes.len() - i,
        {
            if starts_with(path, self.ignore_routes[i].as_str()) {
                assert(self@.ignore_routes[i as int].is_prefix_of(path@));
                return true;
            }
            i += 1;
        }
        false
    }

    /// Looks at the method, the path and the header, and sees no token:
    /// see `spec_screen`.
    pub fn screen<'a>(&self, request: &'a RequestHead) -> (screening: Screening<'a>)
        ensures
            screening@ == spec_screen(self@.ignore_routes, request@),
    {
        if same_text(request.method.as_str(), "OPTIONS") || self.is_ignored(request.path.as_str()) {
            return Screening::Allow;
        }
        match &request.authorization {
            AuthorizationHeader::Absent => Screening::Reject(AuthError::MissingHeader),
            AuthorizationHeader::Unreadable => Screening::Reject(AuthError::BadFormat),
            AuthorizationHeader::Text(value) => match bearer_token(value.as_str()) {
                Some(token) => Screening::Verify(token),
                None => Screening::Reject(AuthError::BadFormat),
            },
        }
    }

    /// Decides for a request at the time `now`: see `spec_call`.
    pub fn call_at(&self, request: &RequestHead, now: u64) -> (decision: Decision)
        ensures
            decision@ == spec_call(self@.ignore_routes, self@.secret, request@, now as int),
            bypasses(self@.ignore_routes, request@) ==> decision@ == DecisionView::Allow(None),
            !bypasses(self@.ignore_routes, request@) && request@.authorization
                == HeaderView::Absent ==> decision@ == DecisionView::Reject(
                AuthError::MissingHeader,
            ),
            decision@ matches DecisionView::Allow(Some(identity)) ==> exists|token: Seq<char>|
                presents(request@, token) && #[trigger] spec_verify(
                    self@.secret,
                    token,
                    now as int,
                ) == Ok::<_, AuthError>(identity),
    {
        proof {
            lemma_call_outcomes(self@.ignore_routes, self@.secret, request@, now as int);
        }
        match self.screen(request) {
            Screening::Allow => Decision::Allow(RequestContext::anonymous()),
            Screening::Reject(e) => Decision::Reject(e),
            Screening::Verify(token) => conclude(self.auth.verify_token_at(token, now)),
        }
    }

    /// Decides for a request by the system clock. Whatever the clock says,
    /// the result is what `call_at` gives for that time.
    pub fn call(&self, request: &RequestHead) -> (decision: Decision)
        ensures
            exists|now: int|
                0 <= now <= u64::MAX && decision@ == #[trigger] spec_call(
                    self@.ignore_routes,
                    self@.secret,
                    request@,
                    now,
                ),
            bypasses(self@.ignore_routes, request@) ==> decision@ == DecisionView::Allow(None),
            !bypasses(self@.ignore_routes, request@) && request@.authorization
                == HeaderView::Absent ==> decision@ == DecisionView::Reject(
                AuthError::MissingHeader,
            ),
    {
        self.call_at(request, unix_now())
    }
}

} // verus!
