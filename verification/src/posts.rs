use crate::middleware::{AuthenticatedRequest, RequestContext};
use crate::models::{
    CreatePostRequest, NewPost, NewPostView, NewUser, NewUserView, Post, PostWithAuthor,
    PostWithAuthorView, User,
};
use crate::reply::{
    Reply, ReplyView, STATUS_BAD_REQUEST, STATUS_CREATED, STATUS_INTERNAL_SERVER_ERROR,
    STATUS_NOT_FOUND, STATUS_NO_CONTENT, STATUS_OK,
};
use vstd::prelude::*;

verus! {

/// The step at which work on the store went wrong.
#[derive(Clone, Copy, Debug, PartialEq, Eq, Structural)]
pub enum StoreFault {
    Connection,
    LoadPosts,
    FindPost,
    CheckPost,
    FindUser,
    LookupUser,
    CreatePost,
    UpdatePost,
    DeletePost,
}

impl StoreFault {
    /// The message that the client is given for the fault.
    pub open spec fn spec_message(self) -> Seq<char> {
        match self {
            StoreFault::Connection => "Failed to get DB connection"@,
            StoreFault::LoadPosts => "Failed to load posts"@,
            StoreFault::FindPost => "Database error finding post"@,
            StoreFault::CheckPost => "Database error checking post"@,
            StoreFault::FindUser => "Failed to find user"@,
            StoreFault::LookupUser => "Database error finding user"@,
            StoreFault::CreatePost => "Failed to create post"@,
            StoreFault::UpdatePost => "Failed to update post"@,
            StoreFault::DeletePost => "Failed to delete post"@,
        }
    }

    pub fn message(self) -> (text: &'static str)
        ensures
            text@ == self.spec_message(),
    {
        match self {
            StoreFault::Connection => "Failed to get DB connection",
            StoreFault::LoadPosts => "Failed to load posts",
            StoreFault::FindPost => "Database error finding post",
            StoreFault::CheckPost => "Database error checking post",
            StoreFault::FindUser => "Failed to find user",
            StoreFault::LookupUser => "Database error finding user",
            StoreFault::CreatePost => "Failed to create post",
            StoreFault::UpdatePost => "Failed to update post",
            StoreFault::DeletePost => "Failed to delete post",
        }
    }
}

/// How work on the store ended.
#[derive(Clone, Debug, PartialEq, Eq)]
pub enum StoreOutcome<T> {
    /// It was done, with this result.
    Done(T),
    /// It went wrong at this step.
    Failed(StoreFault),
    /// The task that ran it did not finish; the text says why.
    Aborted(String),
}

/// The reply whose body is a JSON object with the message as its `error`.
pub open spec fn error_reply<T>(status: int, message: Seq<char>) -> ReplyView<T> {
    ReplyView::Error { status, message }
}

/// The reply to work that did not get done, where a fault of the store is
/// answered with `fault_status`. A task that did not finish is always
/// answered 500.
pub open spec fn spec_undone<T, U>(outcome: StoreOutcome<T>, fault_status: int) -> ReplyView<U>
    recommends
        !(outcome is Done),
{
    match outcome {
        StoreOutcome::Failed(fault) => error_reply(fault_status, fault.spec_message()),
        StoreOutcome::Aborted(why) => error_reply(500, why@),
        StoreOutcome::Done(_) => arbitrary(),
    }
}

/// The reply to a request for all posts: the list, or 500.
pub open spec fn spec_get_all_posts<T>(outcome: StoreOutcome<T>) -> ReplyView<T> {
    match outcome {
        StoreOutcome::Done(posts) => ReplyView::Json { status: 200, payload: posts },
        _ => spec_undone(outcome, 500),
    }
}

/// The reply to a request for one post, and to a request that rewrites one:
/// the post, 404 where there is none (for a rewrite: none of that author),
/// or 500.
pub open spec fn spec_get_post_by_id<T>(outcome: StoreOutcome<Option<T>>) -> ReplyView<T> {
    match outcome {
        StoreOutcome::Done(Some(post)) => ReplyView::Json { status: 200, payload: post },
        StoreOutcome::Done(None) => error_reply(404, "Post not found"@),
        _ => spec_undone(outcome, 500),
    }
}

/// The reply to a request that creates a post: 201 with the post; a fault
/// of the store is put down to the request and answered 400.
pub open spec fn spec_create_post<T>(outcome: StoreOutcome<T>) -> ReplyView<T> {
    match outcome {
        StoreOutcome::Done(post) => ReplyView::Json { status: 201, payload: post },
        _ => spec_undone(outcome, 400),
    }
}

/// The reply to a request that deletes a post: 204 without a body where one
/// was deleted, 404 where there was none, or 500.
pub open spec fn spec_delete_post(outcome: StoreOutcome<bool>) -> ReplyView<()> {
    match outcome {
        StoreOutcome::Done(true) => ReplyView::Empty { status: 204 },
        StoreOutcome::Done(false) => error_reply(404, "Post not found"@),
        _ => spec_undone(outcome, 500),
    }
}

/// The reply to a posted tweet: 200 with the post; a fault of the store is
/// put down to the request and answered 400.
pub open spec fn spec_post_tweet<T>(outcome: StoreOutcome<T>) -> ReplyView<T> {
    match outcome {
        StoreOutcome::Done(post) => ReplyView::Json { status: 200, payload: post },
        _ => spec_undone(outcome, 400),
    }
}

/// Answers a request for all posts: see `spec_get_all_posts`.
pub fn get_all_posts<T>(outcome: StoreOutcome<T>) -> (reply: Reply<T>)
    ensures
        reply@ == spec_get_all_posts(outcome),
{
    match outcome {
        StoreOutcome::Done(posts) => Reply::Json { status: STATUS_OK, payload: posts },
        StoreOutcome::Failed(fault) => Reply::error(STATUS_INTERNAL_SERVER_ERROR, fault.message()),
        StoreOutcome::Aborted(why) => Reply::Error {
            status: STATUS_INTERNAL_SERVER_ERROR,
            message: why,
        },
    }
}

/// Answers a request for one post: see `spec_get_post_by_id`.
pub fn get_post_by_id<T>(outcome: StoreOutcome<Option<T>>) -> (reply: Reply<T>)
    ensures
        reply@ == spec_get_post_by_id(outcome),
{
    match outcome {
        StoreOutcome::Done(Some(post)) => Reply::Json { status: STATUS_OK, payload: post },
        StoreOutcome::Done(None) => Reply::error(STATUS_NOT_FOUND, "Post not found"),
        StoreOutcome::Failed(fault) => Reply::error(STATUS_INTERNAL_SERVER_ERROR, fault.message()),
        StoreOutcome::Aborted(why) => Reply::Error {
            status: STATUS_INTERNAL_SERVER_ERROR,
            message: why,
        },
    }
}

/// Answers a request that creates a post: see `spec_create_post`.
pub fn create_post<T>(outcome: StoreOutcome<T>) -> (reply: Reply<T>)
    ensures
        reply@ == spec_create_post(outcome),
{
    match outcome {
        StoreOutcome::Done(post) => Reply::Json { status: STATUS_CREATED, payload: post },
        StoreOutcome::Failed(fault) => Reply::error(STATUS_BAD_REQUEST, fault.message()),
        StoreOutcome::Aborted(why) => Reply::Error {
            status: STATUS_INTERNAL_SERVER_ERROR,
            message: why,
        },
    }
}

/// Answers a request that rewrites a post. The store is asked for the post
/// of that id and of the requesting author only, so another author's post
/// is answered as one that is not there: see `spec_get_post_by_id`.
pub fn update_post<T>(outcome: StoreOutcome<Option<T>>) -> (reply: Reply<T>)
    ensures
        reply@ == spec_get_post_by_id(outcome),
{
    get_post_by_id(outcome)
}

/// Answers a request that deletes a post: see `spec_delete_post`.
pub fn delete_post(outcome: StoreOutcome<bool>) -> (reply: Reply<()>)
    ensures
        reply@ == spec_delete_post(outcome),
{
    match outcome {
        StoreOutcome::Done(true) => Reply::Empty { status: STATUS_NO_CONTENT },
        StoreOutcome::Done(false) => Reply::error(STATUS_NOT_FOUND, "Post not found"),
        StoreOutcome::Failed(fault) => Reply::error(STATUS_INTERNAL_SERVER_ERROR, fault.message()),
        StoreOutcome::Aborted(why) => Reply::Error {
            status: STATUS_INTERNAL_SERVER_ERROR,
            message: why,
        },
    }
}

/// Answers a posted tweet: see `spec_post_tweet`.
pub fn post_tweet<T>(outcome: StoreOutcome<T>) -> (reply: Reply<T>)
    ensures
        reply@ == spec_post_tweet(outcome),
{
    match outcome {
        StoreOutcome::Done(post) => Reply::Json { status: STATUS_OK, payload: post },
        StoreOutcome::Failed(fault) => Reply::error(STATUS_BAD_REQUEST, fault.message()),
        StoreOutcome::Aborted(why) => Reply::Error {
            status: STATUS_INTERNAL_SERVER_ERROR,
            message: why,
        },
    }
}

/// Tells from the number of rows that a delete removed whether a post was
/// deleted.
pub fn was_deleted(rows: usize) -> (deleted: bool)
    ensures
        deleted == (rows > 0),
{
    rows > 0
}

/// The author of a request that went through the middleware on a protected
/// route: the user id of the identity in its context.
pub fn author(context: &RequestContext) -> (user_id: i32)
    requires
        context@ is Some,
    ensures
        user_id == context@->0.user_id,
{
    match context.get_auth_claims() {
        Some(claims) => claims.user_id,
        None => 0,
    }
}

/// What is to be stored for a request that creates a post: the content as
/// it was sent, under the authenticated user as its author.
pub fn compose_post(context: &RequestContext, request: &CreatePostRequest) -> (post: NewPost)
    requires
        context@ is Some,
    ensures
        post@ == (NewPostView { user_id: context@->0.user_id, content: request.content@ }),
{
    NewPost { user_id: author(context), content: request.content.clone() }
}

/// A post as it is shown. The name is the given user's, who is meant to be
/// the post's author; the author's id is the one that the post holds.
pub open spec fn spec_with_author(post: Post, user: User) -> PostWithAuthorView {
    PostWithAuthorView {
        id: post@.id,
        user_id: post@.user_id,
        username: user@.username,
        content: post@.content,
        created_at: post@.created_at,
    }
}

/// Puts a post together with its author's name: see `spec_with_author`.
pub fn with_author(post: Post, user: &User) -> (shown: PostWithAuthor)
    ensures
        shown@ == spec_with_author(post, *user),
{
    PostWithAuthor {
        id: post.id,
        user_id: post.user_id,
        username: user.username.clone(),
        content: post.content,
        created_at: post.created_at,
    }
}

/// Whose name a tweet is posted under.
#[derive(Clone, Debug, PartialEq, Eq)]
pub enum TweetAuthor {
    /// A user of that name is there already.
    Known(User),
    /// There is none yet: this one is to be created first.
    Create(NewUser),
}

/// Finds the author of a tweet posted under `username`: the user of that
/// name if the store has one, else a new user of that name, who has no
/// password and can therefore not log in.
pub fn tweet_author(found: Option<User>, username: &str) -> (who: TweetAuthor)
    ensures
        match found {
            Some(user) => who matches TweetAuthor::Known(known) && known@ == user@,
            None => who matches TweetAuthor::Create(new_user) && new_user@ == (NewUserView {
                username: username@,
                password_hash: Seq::<char>::empty(),
            }),
        },
{
    match found {
        Some(user) => TweetAuthor::Known(user),
        None => TweetAuthor::Create(
            NewUser { username: username.to_owned(), password_hash: String::new() },
        ),
    }
}

/// What is to be stored for a tweet: the content as it was sent, under the
/// given user as its author.
pub fn compose_tweet(author: &User, content: &str) -> (post: NewPost)
    ensures
        post@ == (NewPostView { user_id: author@.id, content: content@ }),
{
    NewPost { user_id: author.id, content: content.to_owned() }
}

} // verus!
