//! Verified core of the ACE diagnostic test fixtures and DoIP vehicle driver.

pub mod bounded;
pub mod duration;

pub mod did_store;
pub mod security;

pub mod activation;
pub mod routing;
pub mod scenario;

pub mod transport;
