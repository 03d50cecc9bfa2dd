//! The operations of the service, one module per resource.
pub mod res;
pub mod users;
pub mod articles;
pub mod profiles;
