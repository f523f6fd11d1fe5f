pub mod connection;
pub mod database;
pub mod parser;
pub mod records;
pub mod tables;
