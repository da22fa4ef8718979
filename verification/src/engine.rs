//! The engine that a server is configured with.

use vstd::prelude::*;

verus! {

/// The configuration of an engine. It holds nothing yet.
#[derive(Clone, Copy, Debug, PartialEq, Eq)]
pub struct Engine {}

impl Default for Engine {
    fn default() -> (r: Self)
        ensures
            r == (Engine {  }),
    {
        Engine {  }
    }
}

impl Engine {
    /// Checks a bearer token against a user name. The engine knows no user,
    /// so it refuses every pair, with an empty message.
    pub fn authenticate(&self, user_name: &str, bearer_token: &String) -> (r: Result<(), String>)
        ensures
            r matches Err(message) && message@ == Seq::<char>::empty(),
    {
        Err(String::new())
    }
}

} // verus!
