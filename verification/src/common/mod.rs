pub mod config;
pub mod db;
pub mod dnslib;
pub mod ssladapter;
pub mod strings;
