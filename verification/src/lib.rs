//! Activation of a profile on a host: the decisions of one activation attempt,
//! from the profile switch through the hooks to the rollback after a failed
//! activation.
//!
//! The library touches nothing on the host. [`protocol::begin`] and
//! [`protocol::step`] say what is to be done next; a driver does it, with a
//! profile backend and a shell, and reports what happened. [`run`] proves
//! what holds of every course that an attempt can take, [`generation`] reads
//! the generation listing after a rollback, and [`notice`] says what the
//! operator is told.

pub mod generation;
pub mod notice;
pub mod outcome;
pub mod protocol;
pub mod request;
pub mod run;
pub mod text;
