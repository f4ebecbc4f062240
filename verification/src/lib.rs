//! Record the exit status and output of executed commands under a base
//! directory, one directory per record, and retrieve or delete them later.

pub mod cli;
pub mod id;
pub mod paths;
pub mod status;
pub mod store;
pub mod text;
