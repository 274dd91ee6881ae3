//! Validated identity fields for newsletter subscribers.
//!
//! A raw string becomes a [`domain::SubscriberEmail`] or a
//! [`domain::SubscriberName`] only by passing that type's `parse`; a value of
//! either type therefore never needs checking again.

pub mod domain;
