//! Supervisory core of a desktop application: lifecycle decisions for a locally
//! spawned backend worker, and the correlation state of an OAuth authorization
//! attempt carried between two user actions.

pub mod oauth;
pub mod pid_list;
mod provider;
pub mod reclaim;
pub mod signal;
pub mod startup;
pub mod worker;
