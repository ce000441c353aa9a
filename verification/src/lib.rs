//! Decision logic of the Komodo core server: permissions, action
//! state locking, connection arguments, alerting and caching rules.
pub mod specifics;
pub mod permission;
pub mod action_state;
pub mod connection;
pub mod validations;
pub mod target;
pub mod alerts;
pub mod monitor;
pub mod image_digest;
pub mod services;
pub mod deployment_update;
pub mod swarm_request;
pub mod terminal;
pub mod update;
pub mod procedure;
pub mod auth;
pub mod cloud;
pub mod deploy;
pub mod users;
pub mod onboarding;
pub mod deployment;
pub mod summary;
pub mod alert_message;
pub mod key_rotation;
pub mod text;
pub mod container_import;
pub mod paging;
pub mod extra_args;
pub mod deployment_exec;
pub mod cli;
pub mod listing;
pub mod terminal_order;
