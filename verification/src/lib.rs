//! Verified core of an eBPF-based process monitoring agent: kernel event
//! records, the per-process bookkeeping done at exec/fork/exit time, agent
//! configuration from YAML and command line, detector planning, and the
//! conversion of raw kernel records into high-level events.

pub mod event;
pub mod text;
pub mod transmuter;
pub mod path;
pub mod config;
pub mod proto;
pub mod registry;
pub mod yaml;
pub mod bpf_map;
pub mod buf;
pub mod procmon;
pub mod gtfobins;
pub mod detector;
