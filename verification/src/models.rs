use vstd::prelude::*;

verus! {

/// A user as the store holds one.
#[derive(Clone, Debug, PartialEq, Eq)]
pub struct User {
    pub id: i32,
    pub username: String,
    /// The bcrypt hash of the password, never the password.
    pub password_hash: String,
    /// When the user was created, in microseconds since the epoch.
    pub created_at: i64,
}

/// `User` as contracts speak of it.
pub struct UserView {
    pub id: int,
    pub username: Seq<char>,
    pub password_hash: Seq<char>,
    pub created_at: int,
}

impl View for User {
    type V = UserView;

    open spec fn view(&self) -> UserView {
        UserView {
            id: self.id as int,
            username: self.username@,
            password_hash: self.password_hash@,
            created_at: self.created_at as int,
        }
    }
}

/// A post as the store holds one.
#[derive(Clone, Debug, PartialEq, Eq)]
pub struct Post {
    pub id: i32,
    /// The id of the user who wrote it.
    pub user_id: i32,
    pub content: String,
    /// When the post was created, in microseconds since the epoch.
    pub created_at: i64,
}

/// `Post` as contracts speak of it.
pub struct PostView {
    pub id: int,
    pub user_id: int,
    pub content: Seq<char>,
    pub created_at: int,
}

impl View for Post {
    type V = PostView;

    open spec fn view(&self) -> PostView {
        PostView {
            id: self.id as int,
            user_id: self.user_id as int,
            content: self.content@,
            created_at: self.created_at as int,
        }
    }
}

/// A post as it is shown: with the name of the user who wrote it.
#[derive(Clone, Debug, PartialEq, Eq)]
pub struct PostWithAuthor {
    pub id: i32,
    pub user_id: i32,
    pub username: String,
    pub content: String,
    pub created_at: i64,
}

/// `PostWithAuthor` as contracts speak of it.
pub struct PostWithAuthorView {
    pub id: int,
    pub user_id: int,
    pub username: Seq<char>,
    pub content: Seq<char>,
    pub created_at: int,
}

impl View for PostWithAuthor {
    type V = PostWithAuthorView;

    open spec fn view(&self) -> PostWithAuthorView {
        PostWithAuthorView {
            id: self.id as int,
            user_id: self.user_id as int,
            username: self.username@,
            content: self.content@,
            created_at: self.created_at as int,
        }
    }
}

/// What is handed to the store to create a user.
#[derive(Clone, Debug, PartialEq, Eq)]
pub struct NewUser {
    pub username: String,
    pub password_hash: String,
}

/// `NewUser` as contracts speak of it.
pub struct NewUserView {
    pub username: Seq<char>,
    pub password_hash: Seq<char>,
}

impl View for NewUser {
    type V = NewUserView;

    open spec fn view(&self) -> NewUserView {
        NewUserView { username: self.username@, password_hash: self.password_hash@ }
    }
}

/// What is handed to the store to create a post.
#[derive(Clone, Debug, PartialEq, Eq)]
pub struct NewPost {
    /// The author: the user that the request was authenticated as.
    pub user_id: i32,
    pub content: String,
}

/// `NewPost` as contracts speak of it.
pub struct NewPostView {
    pub user_id: int,
    pub content: Seq<char>,
}

impl View for NewPost {
    type V = NewPostView;

    open spec fn view(&self) -> NewPostView {
        NewPostView { user_id: self.user_id as int, content: self.content@ }
    }
}

/// The body of a request that creates or rewrites a post.
#[derive(Clone, Debug, PartialEq, Eq)]
pub struct CreatePostRequest {
    pub content: String,
}

/// The body of a login request.
#[derive(Clone, Debug, PartialEq, Eq)]
pub struct LoginRequest {
    pub username: String,
    pub password: String,
}

/// The body of a registration request.
#[derive(Clone, Debug, PartialEq, Eq)]
pub struct RegisterRequest {
    pub username: String,
    pub password: String,
}

/// What a successful login or registration answers with.
#[derive(Clone, Debug, PartialEq, Eq)]
pub struct AuthResponse {
    pub token: String,
    pub user_id: i32,
    pub username: String,
}

/// `AuthResponse` as contracts speak of it.
pub struct AuthResponseView {
    pub token: Seq<char>,
    pub user_id: int,
    pub username: Seq<char>,
}

impl View for AuthResponse {
    type V = AuthResponseView;

    open spec fn view(&self) -> AuthResponseView {
        AuthResponseView {
            token: self.token@,
            user_id: self.user_id as int,
            username: self.username@,
        }
    }
}

} // verus!
