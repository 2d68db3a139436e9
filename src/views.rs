//! What the web front end is told about a signed-in user.

use vstd::prelude::*;

verus! {

/// A user's display name and picture.
#[derive(Debug)]
pub struct UserAvatar {
    pub name: String,
    pub avatar_url: Option<String>,
}

impl UserAvatar {
    /// The avatar of a user with the given name and picture.
    pub fn new(name: &String, avatar_url: &Option<String>) -> (r: UserAvatar)
        ensures
            r.name@ == name@,
            r.avatar_url matches Some(u) ==> avatar_url matches Some(v) && u@ == v@,
            r.avatar_url is None <==> avatar_url is None,
    {
        UserAvatar {
            name: name.clone(),
            avatar_url: match avatar_url {
                Some(url) => Some(url.clone()),
                None => None,
            },
        }
    }
}

} // verus!
