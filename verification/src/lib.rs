pub mod controller;
pub mod executor;
pub mod muteme;
pub mod poller;
pub mod pulse;
