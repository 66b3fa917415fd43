//! Values that the first client sends and receives.
use vstd::prelude::*;

verus! {

/// Sign-in credentials.
#[derive(Debug, Clone)]
pub struct SignInInfo {
    pub email: String,
    pub password: String,
}

/// The signed-in user.
#[derive(Debug, Clone)]
pub struct User {
    pub id: String,
}

/// The query of a data-set listing.
#[derive(Debug, Clone)]
pub struct DataSetsSetting {
    pub delay: u8,
    pub instrument_type: String,
    pub limit: u8,
    pub offset: u8,
    pub region: String,
    pub universe: String,
}

/// The query of a data-field listing.
#[derive(Debug, Clone)]
pub struct DataFieldsSetting {
    pub delay: u8,
    pub instrument_type: String,
    pub limit: u8,
    pub offset: u8,
    pub region: String,
    pub universe: String,
    pub data_set_id: String,
}

} // verus!
