//! Newsletter subscriptions: the decisions of the subscription write path.
//!
//! A submission arrives as a URL-encoded form body. [`routes::receive`] turns
//! it either into the one record to insert or into the reply to send at once;
//! [`routes::respond`] turns the outcome of the insert into the reply. The
//! caller owns the socket and the store: this crate performs no I/O.

pub mod error;
pub mod form;
pub mod record;
pub mod response;
pub mod routes;
