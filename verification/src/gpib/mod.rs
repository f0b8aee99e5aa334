pub mod command;

pub use command::Command;
