//! TermSWX: the routing, filtering and protocol rules of a serial terminal switch.

pub mod ansi_filter;
pub mod ansi_seq;
pub mod channel;
pub mod cmdline;
pub mod config;
pub mod console_service;
pub mod logger_service;
pub mod network_service;
pub mod script_runner;
pub mod serial_service;
pub mod term_switch;
pub mod text;
pub mod toml_table;
