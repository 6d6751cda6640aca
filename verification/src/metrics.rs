pub mod cpu_frequency;
pub mod cpu_usage;
pub mod disk_io;
pub mod disk_smart;
pub mod docker;
pub mod memory_usage;
pub mod network_io;
pub mod no_operation;
pub mod ups;
pub mod util;
pub mod zfs_arc;
pub mod zfs_dataset;
