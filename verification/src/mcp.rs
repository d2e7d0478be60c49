pub mod server;
pub mod tools;
