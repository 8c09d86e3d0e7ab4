//! A graph of repositories and their files, resolved on demand against a
//! remote source-control service.

pub mod adapter;
pub mod files;
pub mod params;
pub mod remote;
pub mod text;
pub mod time;
pub mod vertex;
