//! Detector configuration messages.

use vstd::prelude::*;

verus! {

/// Configuration file for the ProcMon detector.
#[derive(Clone, Debug, PartialEq, Eq, Hash, Default)]
pub struct ProcMonConfig {
    /// Flag for exporting events from kernel to user mode.
    pub expose_events: bool,
    /// Process filter configuration.
    pub process_filter: Option<ProcessFilter>,
}

/// Filter events using process information.
/// Filtering is based on the pattern: uid AND euid AND auid AND
/// (binary.name OR binary.prefix OR binary.path). Every part of the pattern
/// is optional. If `deny_list` is true the filter acts as a deny list,
/// otherwise as an allow list.
#[derive(Clone, Debug, PartialEq, Eq, Hash, Default)]
pub struct ProcessFilter {
    /// List of UIDs to filter.
    pub uid: Vec<u32>,
    /// List of EUIDs to filter.
    pub euid: Vec<u32>,
    /// List of AUIDs (login uid) to filter.
    pub auid: Vec<u32>,
    /// Binary filter arguments.
    pub binary: Option<BinaryFilter>,
    /// If true, acts like a deny list.
    pub deny_list: bool,
}

/// Binary filtering arguments.
#[derive(Clone, Debug, PartialEq, Eq, Hash, Default)]
pub struct BinaryFilter {
    /// List of executable names to filter.
    pub name: Vec<String>,
    /// List of full executable paths to filter.
    pub path: Vec<String>,
    /// List of executable path prefixes to filter.
    pub prefix: Vec<String>,
}

/// Configuration file for the FileMon detector.
#[derive(Clone, Debug, PartialEq, Eq, Hash, Default)]
pub struct FileMonConfig {
    /// security_file_open config.
    pub file_open: Option<FileHookConfig>,
    /// security_path_truncate config.
    pub path_truncate: Option<FileHookConfig>,
    /// security_path_unlink config.
    pub path_unlink: Option<FileHookConfig>,
    /// Filter file events by process information.
    pub process_filter: Option<ProcessFilter>,
}

/// FileMon hook configuration.
#[derive(Clone, Copy, Debug, PartialEq, Eq, Hash, Default)]
pub struct FileHookConfig {
    /// Do not load the eBPF program.
    pub disable: bool,
}

/// Configuration file for the NetMon detector.
#[derive(Clone, Debug, PartialEq, Eq, Hash, Default)]
pub struct NetMonConfig {
    /// Filter network events by process information.
    pub process_filter: Option<ProcessFilter>,
}

/// Configuration file for the IOUringMon detector.
#[derive(Clone, Debug, PartialEq, Eq, Hash, Default)]
pub struct IoUringMonConfig {
    /// Filter io_uring events by process information.
    pub process_filter: Option<ProcessFilter>,
}

/// Configuration file for the GTFOBins detector.
#[derive(Clone, Debug, PartialEq, Eq, Hash, Default)]
pub struct GtfoBinsConfig {
    /// Block execution of GTFOBins binaries.
    pub enforce: bool,
    /// GTFOBins executable names.
    pub gtfobins: Vec<String>,
}

} // verus!
