pub mod gpib;
pub mod listener;
