pub mod args;
pub mod controller;
pub mod emulator;
pub mod system;
