//! Lifecycle and concurrency discipline of a chat-gateway client: a one-shot
//! startup latch, a single-slot handoff between a periodic status producer and
//! the task that applies each status, and the stateless routing of inbound
//! messages and commands to their replies.
//!
//! Nothing here performs I/O or suspends. Each component is a value with
//! transitions; the surrounding program performs the actions they ask for and
//! reports what happened.

pub mod guard;
pub mod presence;
pub mod channel;
pub mod rotation;
pub mod producer;
pub mod applier;
pub mod commands;
pub mod dispatch;
pub mod lifecycle;
