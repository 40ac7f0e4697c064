//! A verified model of a tool-calling agent: a fixed set of named tools
//! (an adder, a weather stub, a host-lookup stub), a registry that
//! advertises their definitions and dispatches invocations by name, and
//! the decision logic of an interactive chat session driver.

pub mod config;
pub mod json;
pub mod registry;
pub mod session;
pub mod spinner;
pub mod tools;

pub use config::Config;
