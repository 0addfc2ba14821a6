//! Classification of container log lines and assembly of multi-stream log
//! searches, with the workload projections that surround them.

pub mod clusters;
pub mod containers;
pub mod deployments;
pub mod level;
pub mod models;
pub mod numtext;
pub mod parser;
pub mod pods;
pub mod search;
pub mod text;
pub mod timestamp;
