//! Orchestration logic for driving a locally running coding agent: locating
//! its tools, turning its progress events into status updates for a UI, and
//! deciding what a message exchange with it yields.

pub mod browser;
pub mod credentials;
pub mod event;
pub mod exchange;
pub mod paths;
pub mod server;
pub mod status;
pub mod stream;
pub mod text;
pub mod tools;
