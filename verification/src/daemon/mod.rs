pub mod dnsproxy;
pub mod nuclei;
pub mod upstream;
