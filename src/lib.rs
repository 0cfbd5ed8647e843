//! Background agent core: the service lifecycle state machine, the process
//! supervisor's decisions, the install/update manager's pure parts and the
//! ordering rules of the log pipeline.
pub mod api;
pub mod cli;
pub mod config;
pub mod install;
pub mod launchd;
pub mod logger;
pub mod models;
pub mod order;
pub mod platform;
pub mod process;
pub mod service;
pub mod storage;
pub mod telemetry;
pub mod text;
