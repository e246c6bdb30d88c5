pub mod client;
pub mod cluster;
pub mod credentials;
pub mod parser;
