pub mod date;
pub mod db;
pub mod row;
pub mod store;
pub mod student;
pub mod text;
