//! The configuration of the agent and its defaults.
use crate::datasource::nut;
use crate::metrics::{
    cpu_frequency, cpu_usage, disk_io, disk_smart, docker, memory_usage, network_io, ups, zfs_arc,
    zfs_dataset,
};
use vstd::prelude::*;

verus! {

/// Where and how much the agent logs.
#[derive(Clone, Debug)]
pub struct Log {
    pub enable_stdout: bool,
    pub enable_log_file: bool,
    pub log_file_directory: Option<String>,
    pub level: String,
    pub directives: Vec<String>,
    pub max_log_files: usize,
}

impl Default for Log {
    fn default() -> (l: Log)
        ensures
            !l.enable_stdout,
            l.enable_log_file,
            l.log_file_directory is Some,
            l.log_file_directory->Some_0@ == "/var/log/hephaestus/"@,
            l.level@ == "INFO"@,
            l.directives@.len() == 0,
            l.max_log_files == 3,
    {
        Log {
            enable_stdout: false,
            enable_log_file: true,
            log_file_directory: Some("/var/log/hephaestus/".to_owned()),
            level: "INFO".to_owned(),
            directives: Vec::new(),
            max_log_files: 3,
        }
    }
}

/// Where the scrape endpoint listens, and after how many milliseconds a request is given
/// up.
#[derive(Clone, Debug)]
pub struct Http {
    pub port: u16,
    pub address: String,
    pub timeout: u64,
}

impl Default for Http {
    fn default() -> (h: Http)
        ensures
            h.port == 9123,
            h.address@ == "0.0.0.0"@,
            h.timeout == 10_000,
    {
        Http { port: 9123, address: "0.0.0.0".to_owned(), timeout: 10_000 }
    }
}

/// The configuration of each probe.
#[derive(Clone, Debug)]
pub struct Collectors {
    pub cpu_usage: cpu_usage::Config,
    pub cpu_frequency: cpu_frequency::Config,
    pub memory_usage: memory_usage::Config,
    pub network_io: network_io::Config,
    pub disk_io: disk_io::Config,
    pub disk_temp: disk_smart::Config,
    pub ups: ups::Config,
    pub docker: docker::Config,
    pub zfs_arc: zfs_arc::Config,
    pub zfs_dataset: zfs_dataset::Config,
}

impl Default for Collectors {
    fn default() -> (c: Collectors)
        ensures
            c.cpu_usage.enabled,
            c.cpu_frequency.enabled,
            c.memory_usage.enabled,
            !c.memory_usage.report_swap,
            c.network_io.enabled,
            c.disk_io.enabled,
            c.disk_temp.enabled,
            c.ups.enabled,
            c.docker.enabled,
            c.zfs_arc.enabled,
            c.zfs_dataset.enabled,
    {
        Collectors {
            cpu_usage: cpu_usage::Config::default(),
            cpu_frequency: cpu_frequency::Config::default(),
            memory_usage: memory_usage::Config::default(),
            network_io: network_io::Config::default(),
            disk_io: disk_io::Config::default(),
            disk_temp: disk_smart::Config::default(),
            ups: ups::Config::default(),
            docker: docker::Config::default(),
            zfs_arc: zfs_arc::Config::default(),
            zfs_dataset: zfs_dataset::Config::default(),
        }
    }
}

/// The configuration of the data sources that need one.
#[derive(Clone, Debug)]
pub struct DataSources {
    pub nut: nut::Config,
}

impl Default for DataSources {
    fn default() -> (d: DataSources)
        ensures
            d.nut.address@ == "localhost"@,
            d.nut.port == 3493,
    {
        DataSources { nut: nut::Config::default() }
    }
}

/// The whole configuration. It is read once at start-up and never changed.
#[derive(Clone, Debug)]
pub struct Configuration {
    pub log: Log,
    pub http: Http,
    pub collector: Collectors,
    pub datasource: DataSources,
}

impl Default for Configuration {
    fn default() -> (c: Configuration)
        ensures
            c.http.port == 9123,
            c.http.timeout == 10_000,
            c.log.max_log_files == 3,
            c.collector.cpu_usage.enabled,
            c.collector.ups.enabled,
            c.datasource.nut.port == 3493,
    {
        Configuration {
            log: Log::default(),
            http: Http::default(),
            collector: Collectors::default(),
            datasource: DataSources::default(),
        }
    }
}

} // verus!
