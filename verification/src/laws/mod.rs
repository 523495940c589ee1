//! What holds of the library as a whole: laws that span several calls, or any
//! run of them.

pub mod answers;
pub mod calls;
pub mod commands;
pub mod contents;
pub mod engine;
pub mod grants;
pub mod history;
pub mod lookups;
pub mod playback;
pub mod reports;
pub mod requests;
pub mod routes;
pub mod sessions;
pub mod sign_in;
pub mod step;
