//! The subscriber's identity fields and the rules that admit them.

pub mod subscriber_email;
pub mod subscriber_name;
pub mod verdict;
pub mod whitespace;

pub use subscriber_email::SubscriberEmail;
pub use subscriber_name::SubscriberName;
