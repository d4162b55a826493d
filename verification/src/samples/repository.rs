//! A store of users, with one default method.

use vstd::prelude::*;
use crate::text::{chars_of, push_str, string_of};

verus! {

/// A user.
pub struct User;

/// What a save runs in.
pub struct Context;

/// A failed save.
pub struct Error;

/// Where users are kept.
pub trait Repository {
    fn find_by_id(&self, id: u64) -> Option<User>;

    fn save(&self, user: &User, ctx: &Context) -> Result<(), Error>;

    /// `prefix`, then `: default`.
    fn default_helper(&self, prefix: &str) -> (r: String)
        ensures
            r@ == prefix@ + ": default"@,
    {
        let mut out = chars_of(prefix);
        push_str(&mut out, ": default");
        string_of(&out)
    }
}

} // verus!
