use vstd::prelude::*;

verus! {

/// The private claims carried by an issued token.
#[derive(Debug)]
pub struct PrivateClaims {
    pub groups: String,
    pub company: i64,
}

impl PrivateClaims {
    /// Claims for a user of `groups` working for `company`.
    pub fn new(groups: String, company: i64) -> (c: Self)
        ensures
            c.groups == groups,
            c.company == company,
    {
        Self { groups, company }
    }
}

/// The answer to a token request.
#[derive(Debug)]
pub struct JWTResponse {
    pub jwt: String,
}

impl JWTResponse {
    /// The answer carrying `jwt`.
    pub fn new(jwt: String) -> (r: Self)
        ensures
            r.jwt == jwt,
    {
        Self { jwt }
    }
}

} // verus!
