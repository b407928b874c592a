//! Decision logic of a small file-transfer service: how an uploaded file is
//! named and where it is stored, how an upload proceeds step by step, and what
//! a download answers. All input and output is left to the caller.

pub mod config;
pub mod download;
pub mod naming;
pub mod reply;
pub mod store;
pub mod upload;
