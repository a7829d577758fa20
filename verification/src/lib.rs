//! The rules of an nginx worker's HTTP modules: where a module's configuration
//! lies, which requests are admitted, and when a worker's timer runs.
pub mod bbr;
pub mod conf;
pub mod worker;
