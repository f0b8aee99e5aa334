pub mod device;
pub mod disk;
