//! Topic configuration registry of a message broker: the table of topics, its
//! logical clock, the auto-create protocol and the attribute reconciler.

pub mod assoc;
pub mod attributes;
pub mod broker_config;
pub mod commands;
pub mod data_version;
pub mod perm;
pub mod system_topics;
pub mod topic_config;
pub mod topic_config_manager;
