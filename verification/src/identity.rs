use vstd::prelude::*;

verus! {

/// The authenticated principal as contracts speak of it.
pub struct Identity {
    pub user_id: int,
    pub username: Seq<char>,
}

/// The identity that a token carries and that the middleware hands to handlers.
#[derive(Clone, Debug, PartialEq, Eq)]
pub struct AuthClaims {
    pub user_id: i32,
    pub username: String,
}

impl View for AuthClaims {
    type V = Identity;

    open spec fn view(&self) -> Identity {
        Identity { user_id: self.user_id as int, username: self.username@ }
    }
}

impl AuthClaims {
    pub fn new(user_id: i32, username: &str) -> (claims: AuthClaims)
        ensures
            claims@ == (Identity { user_id: user_id as int, username: username@ }),
    {
        AuthClaims { user_id, username: username.to_owned() }
    }

    /// A copy that is known to be equal, which `clone` alone does not tell.
    pub fn duplicate(&self) -> (copy: AuthClaims)
        ensures
            copy@ == self@,
    {
        AuthClaims { user_id: self.user_id, username: self.username.clone() }
    }
}

/// The view of an identity that may be absent.
pub open spec fn identity_of(claims: Option<AuthClaims>) -> Option<Identity> {
    match claims {
        Some(c) => Some(c@),
        None => None,
    }
}

} // verus!
