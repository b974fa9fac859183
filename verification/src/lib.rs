//! A verified core for a channel-mirroring proxy: it models the update
//! pipeline (fetch, unpack, optional pre-build, atomic publish), the
//! single-flight trigger discipline, the HTTP endpoint behaviour, and the
//! error taxonomy, as pure decision logic over plain values. All process,
//! file and network work is carried out by a thin unverified shell that
//! follows the actions this library hands out.

pub mod commands;
pub mod config;
pub mod coordinator;
pub mod errors;
pub mod job;
pub mod server;
pub mod store;
