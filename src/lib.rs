//! Bluetooth device manager core: the command and event protocol shared with
//! the Bluetooth worker, the worker's decisions, the event multiplexer's
//! policy and the application state reducer.
pub mod agent;
pub mod app;
pub mod config;
pub mod devices;
pub mod layout;
pub mod lifecycle;
pub mod multiplex;
pub mod order;
pub mod search;
pub mod text;
pub mod theme;
pub mod types;
pub mod worker;
