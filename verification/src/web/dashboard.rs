use vstd::prelude::*;
use crate::text::{ends_with, has_suffix, str_eq};

verus! {

/// A user of the dashboard.
#[derive(Debug)]
pub struct User {
    pub username: String,
    pub email: String,
}

impl User {
    /// The address of the avatar shown for every user.
    pub open spec fn picture_url() -> Seq<char> {
        "https://ik.imagekit.io/smartlinker/images/avatars/user.png"@
    }

    /// A user pays when the email address ends with "@example.com".
    pub fn is_paying_customer(&self) -> (b: bool)
        ensures
            b == has_suffix(self.email@, "@example.com"@),
    {
        ends_with(self.email.as_str(), "@example.com")
    }

    /// The avatar of the user.
    pub fn picture(&self) -> (p: &'static str)
        ensures
            p@ == Self::picture_url(),
    {
        "https://ik.imagekit.io/smartlinker/images/avatars/user.png"
    }

    /// The name shown for the user: the username.
    pub fn name(&self) -> (n: &str)
        ensures
            n@ == self.username@,
    {
        self.username.as_str()
    }

    /// The user named "admin" is the administrator.
    pub fn is_admin(&self) -> (b: bool)
        ensures
            b == (self.username@ == "admin"@),
    {
        str_eq(self.username.as_str(), "admin")
    }
}

} // verus!
