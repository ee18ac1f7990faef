//! Raw event records shared between the kernel-side probes and the agent.

use vstd::prelude::*;
use vstd::array::spec_array_fill_for_copy_type;

verus! {

/// Size of the executable name buffer.
pub const MAX_FILENAME_SIZE: usize = 32;

/// Size of the command line arguments buffer.
pub const MAX_ARGS_SIZE: usize = 1024;

/// Size of the full binary path buffer.
pub const MAX_FILE_PATH: usize = 512;

/// The process ran a set-uid binary (euid differs from uid).
pub const SECUREEXEC_SETUID: u32 = 0b00000001;

/// The process ran a set-gid binary (egid differs from gid).
pub const SECUREEXEC_SETGID: u32 = 0b00000010;

/// The binary carries file capabilities.
pub const SECUREEXEC_FILE_CAPS: u32 = 0b00000100;

/// Union of every known secure-exec flag.
pub const SECUREEXEC_ALL: u32 = 0b00000111;

/// Set of secure-exec flags.
#[derive(Clone, Copy, Debug, PartialEq, Eq)]
pub struct SecureExec {
    pub bits: u32,
}

impl SecureExec {
    /// The empty flag set.
    pub fn empty() -> (r: SecureExec)
        ensures
            r.bits == 0,
    {
        SecureExec { bits: 0 }
    }

    /// Keeps only the known flags of `bits`.
    pub fn from_bits_truncate(bits: u32) -> (r: SecureExec)
        ensures
            r.bits == bits & SECUREEXEC_ALL,
    {
        SecureExec { bits: bits & SECUREEXEC_ALL }
    }

    /// Raw value of the flag set.
    pub fn bits(&self) -> (r: u32)
        ensures
            r == self.bits,
    {
        self.bits
    }

    /// Whether every flag of `flag` is set.
    pub fn contains(&self, flag: u32) -> (r: bool)
        ensures
            r == (self.bits & flag == flag),
    {
        self.bits & flag == flag
    }

    /// Sets the flags of `flag`.
    pub fn insert(&mut self, flag: u32)
        ensures
            final(self).bits == old(self).bits | flag,
    {
        self.bits = self.bits | flag;
    }
}

/// Credentials of a task.
#[derive(Clone, Copy, Debug)]
pub struct Cred {
    /// UID
    pub uid: u32,
    /// EUID
    pub euid: u32,
    pub cap_inheritable: u64,
    pub cap_permitted: u64,
    pub cap_effective: u64,
    pub secureexec: SecureExec,
}

/// Process record kept by the kernel-side probes.
#[derive(Clone, Copy, Debug)]
pub struct ProcInfo {
    /// PID
    pub pid: u32,
    /// TID
    pub tid: u32,
    /// Parent PID
    pub ppid: u32,
    /// Task creds
    pub creds: Cred,
    /// login UID
    pub auid: u32,
    /// if this event comes from clone
    pub clonned: bool,
    /// kernel time of the exec or fork, in nanoseconds since boot
    pub ktime: u64,
    /// executable name
    pub filename: [u8; MAX_FILENAME_SIZE],
    /// full binary path
    pub binary_path: [u8; MAX_FILE_PATH],
    /// command line arguments without argv[0]
    pub args: [u8; MAX_ARGS_SIZE],
    /// cgroup name
    pub cgroup_name: [u8; MAX_FILENAME_SIZE],
}

/// The contents of a process record, its buffers as byte sequences.
pub struct ProcView {
    pub pid: u32,
    pub tid: u32,
    pub ppid: u32,
    pub creds: Cred,
    pub auid: u32,
    pub clonned: bool,
    pub ktime: u64,
    pub filename: Seq<u8>,
    pub binary_path: Seq<u8>,
    pub args: Seq<u8>,
    pub cgroup_name: Seq<u8>,
}

impl View for ProcInfo {
    type V = ProcView;

    open spec fn view(&self) -> ProcView {
        ProcView {
            pid: self.pid,
            tid: self.tid,
            ppid: self.ppid,
            creds: self.creds,
            auid: self.auid,
            clonned: self.clonned,
            ktime: self.ktime,
            filename: self.filename@,
            binary_path: self.binary_path@,
            args: self.args@,
            cgroup_name: self.cgroup_name@,
        }
    }
}

/// GTFOBins execution message.
#[derive(Clone, Copy, Debug)]
pub struct GTFOBinsMsg {
    /// The process that executed a GTFOBins binary.
    pub process: ProcInfo,
}

/// Generic event for the ring buffer.
#[derive(Clone, Copy, Debug)]
pub enum Event {
    /// Process execution.
    ProcExec(ProcInfo),
    /// Process exit.
    ProcExit(ProcInfo),
    /// GTFOBins execution.
    GTFOBins(GTFOBinsMsg),
}

/// Process execution message code (0 - 31 are reserved for common events).
pub const MSG_PROCEXEC: u8 = 0;

/// Process exit message code.
pub const MSG_PROCEXIT: u8 = 1;

/// GTFOBins execution message code.
pub const MSG_GTFOBINS: u8 = 32;

impl Event {
    /// The message code that tags this event in the ring buffer.
    pub fn msg_code(&self) -> (code: u8)
        ensures
            code == match *self {
                Event::ProcExec(_) => MSG_PROCEXEC,
                Event::ProcExit(_) => MSG_PROCEXIT,
                Event::GTFOBins(_) => MSG_GTFOBINS,
            },
    {
        match self {
            Event::ProcExec(_) => MSG_PROCEXEC,
            Event::ProcExit(_) => MSG_PROCEXIT,
            Event::GTFOBins(_) => MSG_GTFOBINS,
        }
    }
}

/// A process record with every field zero.
pub open spec fn zeroed_proc_info() -> ProcInfo {
    ProcInfo {
        pid: 0,
        tid: 0,
        ppid: 0,
        creds: Cred {
            uid: 0,
            euid: 0,
            cap_inheritable: 0,
            cap_permitted: 0,
            cap_effective: 0,
            secureexec: SecureExec { bits: 0 },
        },
        auid: 0,
        clonned: false,
        ktime: 0,
        filename: spec_array_fill_for_copy_type::<u8, MAX_FILENAME_SIZE>(0),
        binary_path: spec_array_fill_for_copy_type::<u8, MAX_FILE_PATH>(0),
        args: spec_array_fill_for_copy_type::<u8, MAX_ARGS_SIZE>(0),
        cgroup_name: spec_array_fill_for_copy_type::<u8, MAX_FILENAME_SIZE>(0),
    }
}

impl ProcInfo {
    /// A process record with every field zero.
    pub fn zeroed() -> (r: ProcInfo)
        ensures
            r == zeroed_proc_info(),
    {
        ProcInfo {
            pid: 0,
            tid: 0,
            ppid: 0,
            creds: Cred {
                uid: 0,
                euid: 0,
                cap_inheritable: 0,
                cap_permitted: 0,
                cap_effective: 0,
                secureexec: SecureExec::empty(),
            },
            auid: 0,
            clonned: false,
            ktime: 0,
            filename: [0u8; MAX_FILENAME_SIZE],
            binary_path: [0u8; MAX_FILE_PATH],
            args: [0u8; MAX_ARGS_SIZE],
            cgroup_name: [0u8; MAX_FILENAME_SIZE],
        }
    }
}

} // verus!
