//! Escalation engine, placeholder interpolation and the decision core of an
//! endless, cancellable "installation" show.

pub mod animation;
pub mod config;
pub mod creepy_messages;
pub mod escalation;
pub mod installer;
pub mod interpolate;
pub mod messages;
pub mod occult_messages;
pub mod random;
pub mod snapshot;
pub mod templates;
pub mod text;
pub mod tier;
