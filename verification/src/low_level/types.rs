//! Values that the low-level client sends and receives.
use vstd::prelude::*;

verus! {

/// Sign-in credentials.
#[derive(Debug, Clone)]
pub struct SignInInfo {
    pub email: String,
    pub password: String,
}

/// The signed-in user.
#[derive(Debug, Clone)]
pub struct User {
    pub id: String,
}

} // verus!
