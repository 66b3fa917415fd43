//! Request and response rules of a WorldQuant Brain API client, with the
//! decisions that the network layer takes between calls.
pub mod text;
pub mod location;
pub mod err;
pub mod app;
pub mod low_level;
pub mod high_level;
pub mod wqb_api;
