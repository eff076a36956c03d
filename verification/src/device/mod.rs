//! Devices and what the provider tells about them.
pub mod device_attr;
pub mod device_list;
pub mod gid;
pub mod guid;
pub mod port_attr;
