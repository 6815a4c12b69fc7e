pub mod boot;
pub mod bytes;
pub mod checksum;
pub mod efuses;
pub mod error;
pub mod mem_map;
pub mod protocol;
