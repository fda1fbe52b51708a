use crate::error::TokenError;
use crate::models::{
    AuthResponse, AuthResponseView, NewUser, NewUserView, RegisterRequest, User, UserView,
};
use crate::password::{bcrypt_matches, check_password, hash_password, hash_view};
use crate::reply::{
    reply_view, Reply, ReplyView, STATUS_INTERNAL_SERVER_ERROR, STATUS_OK, STATUS_UNAUTHORIZED,
};
use crate::token::{issue_view, spec_issue, unix_now, Authentication, DEFAULT_TTL_SECS};
use vstd::prelude::*;

verus! {

/// What the store said when it was asked for the user of a given name.
#[derive(Clone, Debug, PartialEq, Eq)]
pub enum UserLookup {
    /// No connection to the store could be had.
    NoConnection,
    /// There is such a user.
    Found(User),
    /// There is none.
    Missing,
    /// The query failed.
    Failed,
    /// The task that ran the query did not finish.
    Aborted,
}

/// `UserLookup` as contracts speak of it.
pub enum UserLookupView {
    NoConnection,
    Found(UserView),
    Missing,
    Failed,
    Aborted,
}

impl View for UserLookup {
    type V = UserLookupView;

    open spec fn view(&self) -> UserLookupView {
        match self {
            UserLookup::NoConnection => UserLookupView::NoConnection,
            UserLookup::Found(user) => UserLookupView::Found(user@),
            UserLookup::Missing => UserLookupView::Missing,
            UserLookup::Failed => UserLookupView::Failed,
            UserLookup::Aborted => UserLookupView::Aborted,
        }
    }
}

/// What the store said when it was asked to create a user.
#[derive(Clone, Debug, PartialEq, Eq)]
pub enum Insertion {
    /// No connection to the store could be had, so nothing was tried.
    NoConnection,
    /// The user as it was stored.
    Created(User),
    /// The insert failed.
    Failed,
    /// The task that ran the insert did not finish.
    Aborted,
}

/// `Insertion` as contracts speak of it.
pub enum InsertionView {
    NoConnection,
    Created(UserView),
    Failed,
    Aborted,
}

impl View for Insertion {
    type V = InsertionView;

    open spec fn view(&self) -> InsertionView {
        match self {
            Insertion::NoConnection => InsertionView::NoConnection,
            Insertion::Created(user) => InsertionView::Created(user@),
            Insertion::Failed => InsertionView::Failed,
            Insertion::Aborted => InsertionView::Aborted,
        }
    }
}

/// The plain-text reply with the given status and message.
pub open spec fn text_reply(status: int, message: Seq<char>) -> ReplyView<AuthResponseView> {
    ReplyView::Text { status, message }
}

/// The reply that ends a login or a registration once the user is known and
/// a token was asked for: the token with the user's id and name, or 500
/// where none was issued.
pub open spec fn spec_grant(user: UserView, issued: Result<Seq<char>, TokenError>) -> ReplyView<
    AuthResponseView,
> {
    match issued {
        Ok(token) => ReplyView::Json {
            status: 200,
            payload: AuthResponseView { token, user_id: user.id, username: user.username },
        },
        Err(_) => text_reply(500, "Token generation failed"@),
    }
}

/// The reply to a login, given what the store said. A user that is not
/// there and a password that does not match are answered alike.
pub open spec fn spec_login(
    secret: Seq<u8>,
    lookup: UserLookupView,
    password: Seq<char>,
    now: int,
) -> ReplyView<AuthResponseView> {
    match lookup {
        UserLookupView::NoConnection => text_reply(500, "Database connection error"@),
        UserLookupView::Missing => text_reply(401, "Invalid username or password"@),
        UserLookupView::Failed => text_reply(500, "Database error"@),
        UserLookupView::Aborted => text_reply(500, "Operation failed"@),
        UserLookupView::Found(user) => match bcrypt_matches(password, user.password_hash) {
            None => text_reply(500, "Password verification failed"@),
            Some(false) => text_reply(401, "Invalid username or password"@),
            Some(true) => spec_grant(
                user,
                spec_issue(secret, user.id, user.username, now, DEFAULT_TTL_SECS as int),
            ),
        },
    }
}

/// The reply to a registration, given what the store said of the insert. A
/// registration for which no connection could be had ends here as well,
/// before anything is hashed.
pub open spec fn spec_register(secret: Seq<u8>, insertion: InsertionView, now: int) -> ReplyView<
    AuthResponseView,
> {
    match insertion {
        InsertionView::NoConnection => text_reply(500, "Database connection error"@),
        InsertionView::Failed => text_reply(500, "User creation failed"@),
        InsertionView::Aborted => text_reply(500, "User creation operation failed"@),
        InsertionView::Created(user) => spec_grant(
            user,
            spec_issue(secret, user.id, user.username, now, DEFAULT_TTL_SECS as int),
        ),
    }
}

/// Ends a login or a registration: see `spec_grant`.
pub fn grant(user: User, issued: Result<String, TokenError>) -> (reply: Reply<AuthResponse>)
    ensures
        reply_view(reply) == spec_grant(user@, issue_view(issued)),
{
    match issued {
        Ok(token) => Reply::Json {
            status: STATUS_OK,
            payload: AuthResponse { token, user_id: user.id, username: user.username },
        },
        Err(_) => Reply::text(STATUS_INTERNAL_SERVER_ERROR, "Token generation failed"),
    }
}

/// Answers a login at the time `now`: see `spec_login`.
pub fn login_at(auth: &Authentication, lookup: UserLookup, password: &str, now: u64) -> (reply:
    Reply<AuthResponse>)
    ensures
        reply_view(reply) == spec_login(auth@, lookup@, password@, now as int),
{
    match lookup {
        UserLookup::NoConnection => Reply::text(
            STATUS_INTERNAL_SERVER_ERROR,
            "Database connection error",
        ),
        UserLookup::Missing => Reply::text(STATUS_UNAUTHORIZED, "Invalid username or password"),
        UserLookup::Failed => Reply::text(STATUS_INTERNAL_SERVER_ERROR, "Database error"),
        UserLookup::Aborted => Reply::text(STATUS_INTERNAL_SERVER_ERROR, "Operation failed"),
        UserLookup::Found(user) => match check_password(password, user.password_hash.as_str()) {
            None => Reply::text(STATUS_INTERNAL_SERVER_ERROR, "Password verification failed"),
            Some(false) => Reply::text(STATUS_UNAUTHORIZED, "Invalid username or password"),
            Some(true) => {
                let issued = auth.create_token_at(
                    user.id,
                    user.username.as_str(),
                    now,
                    DEFAULT_TTL_SECS,
                );
                grant(user, issued)
            },
        },
    }
}

/// Answers a login by the system clock. Whatever the clock says, the reply
/// is what `login_at` gives for that time.
pub fn login(auth: &Authentication, lookup: UserLookup, password: &str) -> (reply: Reply<
    AuthResponse,
>)
    ensures
        exists|now: int|
            0 <= now <= u64::MAX && reply_view(reply) == #[trigger] spec_login(
                auth@,
                lookup@,
                password@,
                now,
            ),
{
    login_at(auth, lookup, password, unix_now())
}

/// The view of a registration's first half.
pub open spec fn prepared_view(step: Result<NewUser, Reply<AuthResponse>>) -> Result<
    NewUserView,
    ReplyView<AuthResponseView>,
> {
    match step {
        Ok(new_user) => Ok(new_user@),
        Err(reply) => Err(reply_view(reply)),
    }
}

/// What is to be stored for a registration once the password was hashed,
/// or the reply that ends it where no hash could be made.
pub open spec fn spec_new_user(username: Seq<char>, password_hash: Option<Seq<char>>) -> Result<
    NewUserView,
    ReplyView<AuthResponseView>,
> {
    match password_hash {
        Some(hash) => Ok(NewUserView { username, password_hash: hash }),
        None => Err(text_reply(500, "Password hashing failed"@)),
    }
}

/// Puts the new user together from the name and the hash of the password:
/// see `spec_new_user`.
pub fn new_user(username: &str, password_hash: Option<String>) -> (step: Result<
    NewUser,
    Reply<AuthResponse>,
>)
    ensures
        prepared_view(step) == spec_new_user(username@, hash_view(password_hash)),
{
    match password_hash {
        Some(hash) => Ok(NewUser { username: username.to_owned(), password_hash: hash }),
        None => Err(Reply::text(STATUS_INTERNAL_SERVER_ERROR, "Password hashing failed")),
    }
}

/// The first half of a registration, for which a connection to the store is
/// at hand: what is to be stored for the request, or the reply that ends
/// it. The result is what `new_user` makes of the name and of whatever
/// hashing the password gave; the hash is salted at random, so it is not
/// determined by the request, but it matches the request's password.
pub fn register_prepare(request: &RegisterRequest) -> (step: Result<NewUser, Reply<AuthResponse>>)
    ensures
        exists|password_hash: Option<Seq<char>>|
            prepared_view(step) == #[trigger] spec_new_user(request.username@, password_hash),
        step matches Ok(new_user) ==> bcrypt_matches(
            request.password@,
            new_user@.password_hash,
        ) == Some(true),
{
    new_user(request.username.as_str(), hash_password(request.password.as_str()))
}

/// The second half of a registration, at the time `now`: see
/// `spec_register`.
pub fn register_at(auth: &Authentication, insertion: Insertion, now: u64) -> (reply: Reply<
    AuthResponse,
>)
    ensures
        reply_view(reply) == spec_register(auth@, insertion@, now as int),
{
    match insertion {
        Insertion::NoConnection => Reply::text(
            STATUS_INTERNAL_SERVER_ERROR,
            "Database connection error",
        ),
        Insertion::Failed => Reply::text(STATUS_INTERNAL_SERVER_ERROR, "User creation failed"),
        Insertion::Aborted => Reply::text(
            STATUS_INTERNAL_SERVER_ERROR,
            "User creation operation failed",
        ),
        Insertion::Created(user) => {
            let issued = auth.create_token_at(
                user.id,
                user.username.as_str(),
                now,
                DEFAULT_TTL_SECS,
            );
            grant(user, issued)
        },
    }
}

/// The second half of a registration by the system clock. Whatever the
/// clock says, the reply is what `register_at` gives for that time.
pub fn register(auth: &Authentication, insertion: Insertion) -> (reply: Reply<AuthResponse>)
    ensures
        exists|now: int|
            0 <= now <= u64::MAX && reply_view(reply) == #[trigger] spec_register(
                auth@,
                insertion@,
                now,
            ),
{
    register_at(auth, insertion, unix_now())
}

} // verus!
