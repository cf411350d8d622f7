pub mod cli;
pub mod config;
pub mod db_access;
pub mod ebc;
pub mod ebc_manager;
pub mod ebc_runner;
pub mod test_runner;
pub mod text;
pub mod web;
