pub mod cache;
pub mod laws;
pub mod paths;
pub mod records;
pub mod report;
pub mod token;
