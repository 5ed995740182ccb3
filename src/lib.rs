pub mod certhandler;
pub mod cli;
pub mod server;
