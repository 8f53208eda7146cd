pub mod git;
pub mod repos;
