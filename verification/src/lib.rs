//! A webhook-triggered build dispatcher: authenticates commit-status
//! notifications, matches them against configured targets and queues the
//! shell pipelines of the targets that fire.

pub mod search;
pub mod config;
pub mod job;
pub mod queue;
pub mod status;
pub mod handler;
pub mod signature;
pub mod builder;
pub mod hook_handler;
