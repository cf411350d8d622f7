pub mod codec;
pub mod command;
pub mod constants;
pub mod device_capabilities;
pub mod report;
pub mod frame;
pub mod device_command;
