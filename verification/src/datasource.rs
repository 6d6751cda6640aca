pub mod cpu_frequency;
pub mod cpu_usage;
pub mod disk_io;
pub mod disk_smart;
pub mod docker;
pub mod memory_usage;
pub mod network_io;
pub mod nut;
pub mod zfs_arc_stat;
pub mod zfs_dataset;
