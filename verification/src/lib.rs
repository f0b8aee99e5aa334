pub mod byte_order;
pub mod disk_identity;
pub mod disk_image;
pub mod disk_protocol;
pub mod devices;
pub mod disk_request;
pub mod dump_parser;
pub mod emulator;
pub mod gpib;
pub mod gpib_command;
pub mod gpib_pinout;
pub mod gpio;
pub mod logger;
pub mod message;
pub mod newver;
pub mod pi;
