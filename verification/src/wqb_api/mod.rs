//! The first API client: the same endpoints, without throttling retries.
pub mod client;
pub mod model;

use model::SignInInfo;
use vstd::prelude::*;
use vstd::string::*;

verus! {

/// The placeholder credentials that the client's examples sign in with.
pub fn sign_in_info() -> (info: SignInInfo)
    ensures
        info.email@ == "xxxx@xxx.com"@,
        info.password@ == "xxxxx"@,
{
    SignInInfo { email: String::from_str("xxxx@xxx.com"), password: String::from_str("xxxxx") }
}

} // verus!
