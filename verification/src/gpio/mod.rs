pub mod mem;
pub mod mode;
pub mod pinout;
pub mod types;
