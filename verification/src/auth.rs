//! Who acts: the identity that a request is made under.

use vstd::prelude::*;
use vstd::string::StringExecFns;
use crate::model::User;

verus! {

/// Why a request has no identity.
#[derive(Clone, Copy, Debug, PartialEq, Eq, Structural)]
pub enum AuthError {
    /// The request carried no bearer token.
    NotAuthenticated,
    /// The bearer token is not that of exactly one user.
    AuthenticationFailed,
}

impl AuthError {
    /// What the caller is told.
    pub open spec fn text(self) -> Seq<char> {
        match self {
            AuthError::NotAuthenticated => "Not authenticated."@,
            AuthError::AuthenticationFailed => "Authentication failed."@,
        }
    }

    /// What the caller is told.
    pub fn message(&self) -> (r: String)
        ensures
            r@ == self.text(),
    {
        match self {
            AuthError::NotAuthenticated => "Not authenticated.".to_owned(),
            AuthError::AuthenticationFailed => "Authentication failed.".to_owned(),
        }
    }

    /// The HTTP status that the error is answered with: forbidden.
    pub fn status_code(&self) -> (r: u16)
        ensures
            r == 403,
    {
        403
    }
}

/// The user that a request is authenticated as.
#[derive(Clone, Debug, PartialEq, Eq)]
pub struct Claim {
    pub user: User,
}

impl Claim {
    /// The identity of a request, given the users whose bearer token is the
    /// one that the request carried, or `None` where it carried none. The
    /// token must be that of exactly one user.
    pub fn from_users(found: Option<Vec<User>>) -> (r: Result<Claim, AuthError>)
        ensures
            found is None ==> r == Err::<Claim, AuthError>(AuthError::NotAuthenticated),
            found is Some && found->0@.len() != 1 ==> r == Err::<Claim, AuthError>(
                AuthError::AuthenticationFailed,
            ),
            found is Some && found->0@.len() == 1 ==> r == Ok::<Claim, AuthError>(
                (Claim { user: found->0@[0] }),
            ),
    {
        match found {
            None => Err(AuthError::NotAuthenticated),
            Some(users) => {
                let mut users = users;
                if users.len() == 1 {
                    Ok(Claim { user: users.remove(0) })
                } else {
                    Err(AuthError::AuthenticationFailed)
                }
            },
        }
    }

    /// The words that greet the user.
    pub fn greeting(&self) -> (r: String)
        ensures
            r@ == "Hello "@ + self.user.name@ + "!"@,
    {
        let mut r = "Hello ".to_owned();
        r.append(self.user.name.as_str());
        r.append("!");
        r
    }
}

} // verus!
