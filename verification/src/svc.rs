//! The service supervisor: the retry policy of a service, and the manager
//! that keeps the registry of services and decides what is to be done
//! with them.
pub mod manager;
pub mod order;
pub mod policy;
