//! A small to-do list store: the record and payload types, the contract of a
//! repository, a repository in memory and one over a table of a relational
//! database.

pub mod database;
pub mod error;
pub mod memory;
pub mod model;
pub mod records;
pub mod repository;
