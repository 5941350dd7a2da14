//! A host-monitoring agent core: topic construction, discovery aggregation,
//! counter-rate sampling, command dispatch, connection supervision and
//! sleep/wake coordination, with machine-checked contracts.

pub mod command;
pub mod command_subscriber;
pub mod commands;
pub mod config;
pub mod connections;
pub mod discovery_publisher;
pub mod ha;
pub mod host;
pub mod machine_id;
pub mod main_loop;
pub mod parser;
pub mod publisher;
pub mod queue;
pub mod rate;
pub mod retry;
pub mod sensor;
pub mod sensors;
pub mod sleep_monitor;
pub mod snake_case;
pub mod strutil;
pub mod text;
pub mod topics;
