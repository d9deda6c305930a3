//! The handlers behind the two routes, as decisions on plain values.

pub mod health_check;
pub mod subscriptions;

pub use health_check::health_check;
pub use subscriptions::{receive, respond, subscribe, Step, SubscriberData};
