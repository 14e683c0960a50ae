//! Image intake and thumbnail job pipeline: the job lifecycle, the retry
//! policy, the storage record format and the worker's decisions, verified.

pub mod ids;
pub mod text;
pub mod timestamp;
pub mod domain;
pub mod worker;
pub mod config;
pub mod error;
pub mod processing;
pub mod repository;
pub mod routes;
pub mod storage;
