pub mod bootstrap;
pub mod config;
pub mod datasource;
pub mod domain;
pub mod metrics;
pub mod number;
pub mod scrape;
pub mod text;
