//! Process monitoring done by the kernel-side probes: the table of known
//! processes kept across exec, fork and exit, the credentials shared from
//! `bprm_committing_creds` with the following exec, and the events exposed
//! to user space.
//!
//! Each probe is a transition from the tables and the values the probe read
//! from the kernel to the new tables and the event to submit. A read that
//! failed is given as `None` or as its error code; the probe then stops,
//! as the kernel program does, keeping what it already wrote.
//!
//! This module is a model of the kernel-side programs: those are built and
//! loaded as separate eBPF objects, and the agent does not run this code.
//! What is proved here holds of the model.

use vstd::prelude::*;

use crate::bpf_map::BpfHashMap;
use crate::buf::{buf_copy_into, buf_overwrite, str_copy, str_copy_into, str_copy_len};
use crate::event::{
    zeroed_proc_info, Cred, Event, ProcInfo, ProcView, SecureExec, MAX_ARGS_SIZE, MAX_FILENAME_SIZE,
    MAX_FILE_PATH,
    SECUREEXEC_ALL, SECUREEXEC_SETGID, SECUREEXEC_SETUID,
};
use crate::text::{nul_position, slice_prefix, until_nul};
use vstd::wrapping::u64_specs::wrapping_add;

verus! {

broadcast use vstd::std_specs::hash::group_hash_axioms;

/// Maximum number of processes tracked at once.
pub const PROC_MAP_MAX_ENTRIES: usize = 1024;

/// Maximum number of pending credential records.
pub const CRED_SHARED_MAP_MAX_ENTRIES: usize = 1024;

/// Number of ancestors searched for a tracked parent.
pub const MAX_ANCESTORS: usize = 4;

/// ProcMon configuration shared with the kernel-side probes.
#[derive(Clone, Copy, Debug)]
pub struct Config {
    /// Whether exec and exit events are exported to user space.
    pub expose_events: bool,
}

/// Extra information from the `bprm_committing_creds` hook, kept until the
/// exec that follows it.
#[derive(Clone, Copy, Debug)]
pub struct CredSharedInfo {
    pub secureexec: SecureExec,
    /// full binary path
    pub binary_path: [u8; MAX_FILE_PATH],
}

/// Credentials of a task, as read from the kernel.
#[derive(Clone, Copy, Debug)]
pub struct CredReads {
    pub uid: u32,
    pub euid: u32,
    pub cap_inheritable: u64,
    pub cap_permitted: u64,
    pub cap_effective: u64,
}

/// What the exec probe reads from the kernel, in the order it reads it.
pub struct ExecReads {
    /// pid and tgid of the current task (`tgid << 32 | pid`).
    pub pid_tgid: u64,
    /// tgids of the task's ancestors, nearest first, as far as they could be read.
    pub ancestors: Vec<u32>,
    /// Current kernel time.
    pub ktime: u64,
    /// Start and end of the argument area of the task's memory, or the
    /// error code of the failed read.
    pub arg_bounds: Result<(u64, u64), i64>,
    /// The string at the start of the argument area (argv[0]), or the error
    /// code of the failed read.
    pub first_arg: Result<Vec<u8>, i64>,
    /// Name of the executable file, or the error code of the failed read.
    pub filename: Result<Vec<u8>, i64>,
    /// Credentials of the task, or the error code of the failed read.
    pub creds: Result<CredReads, i64>,
    /// Login uid of the task, or the error code of the failed read.
    pub loginuid: Result<u32, i64>,
    /// The readable bytes of user memory at the start of the argument
    /// window, or the error code of the failed read. Fewer bytes than the
    /// window holds make the read fail without a code (0).
    pub args: Result<Vec<u8>, i64>,
}

/// What the fork probe reads from the kernel, in the order it reads it.
pub struct ForkReads {
    /// tgid of the new task.
    pub tgid: Option<u32>,
    /// tgids of the new task's ancestors, nearest first.
    pub ancestors: Vec<u32>,
    /// Current kernel time.
    pub ktime: u64,
    /// pid of the new task, or the error code of the failed read.
    pub tid: Result<u32, i64>,
    /// Credentials of the new task, or the error code of the failed read.
    pub creds: Result<CredReads, i64>,
}

/// User and group ids of the credentials being committed.
#[derive(Clone, Copy, Debug)]
pub struct CommittedIds {
    pub euid: u32,
    pub uid: u32,
    pub egid: u32,
    pub gid: u32,
}

/// What the `bprm_committing_creds` probe reads from the kernel.
pub struct CommitCredsReads {
    /// pid and tgid of the current task.
    pub pid_tgid: u64,
    /// The ids of the new credentials, or the error code of the failed read.
    pub ids: Result<CommittedIds, i64>,
    /// Bytes the path of the binary was written as.
    pub binary_path: Vec<u8>,
}

/// The process id of a `pid_tgid` value (its upper half).
pub open spec fn pid_of(pid_tgid: u64) -> u32 {
    (pid_tgid >> 32u64) as u32
}

/// The thread id of a `pid_tgid` value (its lower half).
pub open spec fn tid_of(pid_tgid: u64) -> u32 {
    pid_tgid as u32
}

/// A record with the credentials that were read.
pub open spec fn with_creds(v: ProcView, c: CredReads) -> ProcView {
    ProcView {
        creds: Cred {
            uid: c.uid,
            euid: c.euid,
            cap_effective: c.cap_effective,
            cap_inheritable: c.cap_inheritable,
            cap_permitted: c.cap_permitted,
            secureexec: v.creds.secureexec,
        },
        ..v
    }
}

/// Whether the buffers of a record have the sizes of the record's arrays.
pub open spec fn record_sized(v: ProcView) -> bool {
    &&& v.filename.len() == MAX_FILENAME_SIZE
    &&& v.binary_path.len() == MAX_FILE_PATH
    &&& v.args.len() == MAX_ARGS_SIZE
    &&& v.cgroup_name.len() == MAX_FILENAME_SIZE
}

/// Whether every record of a table is sized as the record's arrays.
pub open spec fn records_sized(procs: Map<u32, ProcView>) -> bool {
    forall|k: u32| #[trigger] procs.contains_key(k) ==> record_sized(procs[k])
}

/// The first of `keys` that has a record.
pub open spec fn first_tracked(procs: Map<u32, ProcView>, keys: Seq<u32>) -> Option<u32>
    decreases keys.len(),
{
    if keys.len() == 0 {
        None
    } else if procs.contains_key(keys[0]) {
        Some(keys[0])
    } else {
        first_tracked(procs, keys.drop_first())
    }
}

/// The tracked parent: the first of at most `MAX_ANCESTORS` ancestors that
/// has a record.
pub open spec fn find_parent_key(procs: Map<u32, ProcView>, ancestors: Seq<u32>) -> Option<u32> {
    if ancestors.len() <= MAX_ANCESTORS {
        first_tracked(procs, ancestors)
    } else {
        first_tracked(procs, ancestors.take(MAX_ANCESTORS as int))
    }
}

/// The table after looking up `pid` and creating an empty record where
/// there is none and there is room; and whether `pid` has a record then.
pub open spec fn get_init(procs: Map<u32, ProcView>, pid: u32) -> (Map<u32, ProcView>, bool) {
    if procs.contains_key(pid) {
        (procs, true)
    } else if procs.len() < PROC_MAP_MAX_ENTRIES {
        (procs.insert(pid, zeroed_proc_info()@), true)
    } else {
        (procs, false)
    }
}

/// Start of the argument window: just past argv[0] and its terminator.
pub open spec fn arg_window_start(arg_start: u64, first_len: nat) -> u64 {
    wrapping_add(arg_start, (1 + first_len) as u64)
}

/// Size of the argument window: the bytes from its start to the end of the
/// argument area, truncated to leave the last byte of the argument buffer
/// zero; none where the area ends before the window starts.
pub open spec fn arg_window_size(window_start: u64, arg_end: u64) -> u64 {
    if arg_end <= window_start {
        0
    } else if arg_end - window_start < MAX_ARGS_SIZE - 1 {
        (arg_end - window_start) as u64
    } else {
        (MAX_ARGS_SIZE - 1) as u64
    }
}

/// The argument buffer holding `window`, then zeros.
pub open spec fn args_buffer(window: Seq<u8>) -> Seq<u8> {
    buf_overwrite(Seq::new(MAX_ARGS_SIZE as nat, |i: int| 0u8), window)
}

/// The record that exec leaves, and the error code of the first failed
/// read, if any.
/// `parent_pid` is the pid recorded for the tracked parent, `cred` the
/// pending credential record of the task.
pub open spec fn exec_record(
    rec: ProcView,
    parent_pid: Option<u32>,
    r: ExecReads,
    cred: Option<CredSharedInfo>,
) -> (ProcView, Option<u32>) {
    let rec = ProcView {
        ppid: match parent_pid {
            Some(p) => p,
            None => rec.ppid,
        },
        ktime: r.ktime,
        pid: pid_of(r.pid_tgid),
        tid: tid_of(r.pid_tgid),
        ..rec
    };
    match r.arg_bounds {
        Err(e) => (rec, Some(e as u32)),
        Ok(bounds) => match r.first_arg {
            Err(e) => (rec, Some(e as u32)),
            Ok(a0) => {
                let start = arg_window_start(bounds.0, str_copy_len(MAX_ARGS_SIZE as nat, a0@));
                let size = arg_window_size(start, bounds.1);
                match r.filename {
                    Err(e) => (rec, Some(e as u32)),
                    Ok(f) => {
                        let rec = ProcView { filename: str_copy(rec.filename, f@), ..rec };
                        match r.creds {
                            Err(e) => (rec, Some(e as u32)),
                            Ok(c) => {
                                let rec = with_creds(rec, c);
                                match r.loginuid {
                                    Err(e) => (rec, Some(e as u32)),
                                    Ok(au) => {
                                        let rec = ProcView { auid: au, ..rec };
                                        match r.args {
                                            Err(e) => (rec, Some(e as u32)),
                                            Ok(a) => if a@.len() < size {
                                                (rec, Some(0))
                                            } else {
                                                let rec = ProcView {
                                                    args: args_buffer(a@.take(size as int)),
                                                    ..rec
                                                };
                                                match cred {
                                                    None => (rec, None),
                                                    Some(ci) => (
                                                        ProcView {
                                                            creds: Cred {
                                                                secureexec: ci.secureexec,
                                                                ..rec.creds
                                                            },
                                                            binary_path: str_copy(
                                                                rec.binary_path,
                                                                until_nul(ci.binary_path@),
                                                            ),
                                                            ..rec
                                                        },
                                                        None,
                                                    ),
                                                }
                                            },
                                        }
                                    },
                                }
                            },
                        }
                    },
                }
            },
        },
    }
}

/// The pid recorded for the tracked parent, if one is found.
pub open spec fn parent_pid(procs: Map<u32, ProcView>, ancestors: Seq<u32>) -> Option<u32> {
    match find_parent_key(procs, ancestors) {
        Some(k) => Some(procs[k].pid),
        None => None,
    }
}

/// The pending credential record under `key`, if any.
pub open spec fn pending_cred(creds: Map<u64, CredSharedInfo>, key: u64) -> Option<CredSharedInfo> {
    if creds.contains_key(key) {
        Some(creds[key])
    } else {
        None
    }
}

/// The secure-exec flags of committed credentials: set-uid where the
/// effective uid differs from the uid, set-gid where the effective gid
/// differs from the gid.
pub open spec fn committed_secureexec(ids: CommittedIds) -> u32 {
    (if ids.euid != ids.uid {
        SECUREEXEC_SETUID
    } else {
        0u32
    }) | (if ids.egid != ids.gid {
        SECUREEXEC_SETGID
    } else {
        0u32
    })
}

/// The outcome of the exec probe on the tables: the table of records, and
/// its error code where it fails (0 where it gives up without a failed read).
pub open spec fn exec_outcome(
    procs: Map<u32, ProcView>,
    creds: Map<u64, CredSharedInfo>,
    r: ExecReads,
) -> (Map<u32, ProcView>, Option<u32>) {
    let pid = pid_of(r.pid_tgid);
    let init = get_init(procs, pid);
    if !init.1 {
        (procs, Some(0))
    } else {
        let out = exec_record(
            init.0[pid],
            parent_pid(init.0, r.ancestors@),
            r,
            pending_cred(creds, r.pid_tgid),
        );
        (init.0.insert(pid, out.0), out.1)
    }
}

/// The table of records after the exec probe.
pub open spec fn exec_procs(
    procs: Map<u32, ProcView>,
    creds: Map<u64, CredSharedInfo>,
    r: ExecReads,
) -> Map<u32, ProcView> {
    exec_outcome(procs, creds, r).0
}

/// Whether the exec probe succeeds.
pub open spec fn exec_succeeds(
    procs: Map<u32, ProcView>,
    creds: Map<u64, CredSharedInfo>,
    r: ExecReads,
) -> bool {
    exec_outcome(procs, creds, r).1 is None
}

/// The pending credential records after the exec probe: a successful exec
/// consumes the record of its task.
pub open spec fn exec_creds(
    procs: Map<u32, ProcView>,
    creds: Map<u64, CredSharedInfo>,
    r: ExecReads,
) -> Map<u64, CredSharedInfo> {
    if exec_succeeds(procs, creds, r) {
        creds.remove(r.pid_tgid)
    } else {
        creds
    }
}

/// The record that fork leaves for the new process, and the error code of
/// the first failed read, if any. `parent` is the parent's record; where the parent is the
/// new process itself (`alias`), its record is read as it is being written.
pub open spec fn fork_record(rec: ProcView, parent: ProcView, alias: bool, tgid: u32, r: ForkReads) -> (
    ProcView,
    Option<u32>,
) {
    let rec = ProcView { pid: tgid, clonned: true, ..rec };
    let par = if alias {
        rec
    } else {
        parent
    };
    let rec = ProcView { ppid: par.pid, ktime: r.ktime, ..rec };
    match r.tid {
        Err(e) => (rec, Some(e as u32)),
        Ok(t) => {
            let rec = ProcView { tid: t, ..rec };
            let par = if alias {
                rec
            } else {
                parent
            };
            let rec = ProcView { filename: str_copy(rec.filename, until_nul(par.filename)), ..rec };
            let par = if alias {
                rec
            } else {
                parent
            };
            let rec = ProcView {
                binary_path: str_copy(rec.binary_path, until_nul(par.binary_path)),
                ..rec
            };
            let par = if alias {
                rec
            } else {
                parent
            };
            let rec = ProcView { args: par.args, ..rec };
            match r.creds {
                Err(e) => (rec, Some(e as u32)),
                Ok(c) => (with_creds(rec, c), None),
            }
        },
    }
}

/// The outcome of the fork probe on the table of records, and its error
/// code where it fails (0 where it gives up without a failed read).
pub open spec fn fork_outcome(procs: Map<u32, ProcView>, r: ForkReads) -> (
    Map<u32, ProcView>,
    Option<u32>,
) {
    match r.tgid {
        None => (procs, Some(0)),
        Some(tgid) => match find_parent_key(procs, r.ancestors@) {
            None => (procs, Some(0)),
            Some(pk) => {
                let init = get_init(procs, tgid);
                if !init.1 {
                    (procs, Some(0))
                } else if init.0[tgid].ktime != 0 {
                    (init.0, Some(0))
                } else {
                    let out = fork_record(init.0[tgid], init.0[pk], pk == tgid, tgid, r);
                    (init.0.insert(tgid, out.0), out.1)
                }
            },
        },
    }
}

/// The secure-exec record of committed credentials.
pub open spec fn committed_info_ok(info: CredSharedInfo, ids: CommittedIds, path: Seq<u8>) -> bool {
    &&& info.secureexec.bits == committed_secureexec(ids)
    &&& info.binary_path@ == buf_overwrite(Seq::new(MAX_FILE_PATH as nat, |i: int| 0u8), path)
}

/// Tables shared by the kernel-side probes.
pub struct ProcMonState {
    procs: BpfHashMap<u32, ProcInfo>,
    cred_shared: BpfHashMap<u64, CredSharedInfo>,
    config: Config,
}

impl ProcMonState {
    /// Records of the tracked processes, by tgid.
    pub closed spec fn procs(&self) -> Map<u32, ProcView> {
        self.procs@.map_values(|p: ProcInfo| p@)
    }

    /// Pending credential records, by `pid_tgid`.
    pub closed spec fn cred_shared(&self) -> Map<u64, CredSharedInfo> {
        self.cred_shared@
    }

    /// The configuration the probes read.
    pub closed spec fn config(&self) -> Config {
        self.config
    }

    /// Neither table holds more entries than its capacity.
    pub closed spec fn wf(&self) -> bool {
        &&& self.procs.wf()
        &&& self.cred_shared.wf()
        &&& self.procs.capacity() == PROC_MAP_MAX_ENTRIES
        &&& self.cred_shared.capacity() == CRED_SHARED_MAP_MAX_ENTRIES
    }

    /// Both tables stay within their capacity.
    pub proof fn lemma_bounded(&self)
        requires
            self.wf(),
        ensures
            self.procs().dom().finite(),
            self.procs().len() <= PROC_MAP_MAX_ENTRIES,
            self.cred_shared().dom().finite(),
            self.cred_shared().len() <= CRED_SHARED_MAP_MAX_ENTRIES,
            records_sized(self.procs()),
    {
        self.procs.lemma_bounded();
        self.cred_shared.lemma_bounded();
        assert(self.procs().dom() =~= self.procs@.dom());
    }

    /// Empty tables, with events not exposed.
    pub fn new() -> (s: Self)
        ensures
            s.wf(),
            s.procs() == Map::<u32, ProcView>::empty(),
            s.cred_shared() == Map::<u64, CredSharedInfo>::empty(),
            !s.config().expose_events,
    {
        let s = ProcMonState {
            procs: BpfHashMap::new(PROC_MAP_MAX_ENTRIES),
            cred_shared: BpfHashMap::new(CRED_SHARED_MAP_MAX_ENTRIES),
            config: Config { expose_events: false },
        };
        assert(s.procs() =~= Map::<u32, ProcView>::empty());
        s
    }

    /// Sets the configuration the probes read.
    pub fn set_config(&mut self, config: Config)
        requires
            old(self).wf(),
        ensures
            final(self).wf(),
            final(self).config() == config,
            final(self).procs() == old(self).procs(),
            final(self).cred_shared() == old(self).cred_shared(),
    {
        self.config = config;
    }

    /// The record of `pid`, copied.
    pub fn get_proc(&self, pid: u32) -> (r: Option<ProcInfo>)
        requires
            self.wf(),
        ensures
            match r {
                Some(p) => self.procs().contains_key(pid) && p@ == self.procs()[pid],
                None => !self.procs().contains_key(pid),
            },
    {
        self.procs.get(&pid)
    }

    /// Stores the record of a pid that has one.
    fn store(&mut self, pid: u32, p: ProcInfo)
        requires
            old(self).wf(),
            old(self).procs().contains_key(pid),
        ensures
            final(self).wf(),
            final(self).procs() == old(self).procs().insert(pid, p@),
            final(self).cred_shared() == old(self).cred_shared(),
            final(self).config() == old(self).config(),
    {
        let ok = self.procs.insert(pid, p);
        assert(self.procs() =~= old(self).procs().insert(pid, p@));
    }

    /// Finds the record of `pid`, creating an empty one where there is none;
    /// false where there is none and the table is full.
    pub fn exec_map_get_init(&mut self, pid: u32) -> (ok: bool)
        requires
            old(self).wf(),
        ensures
            final(self).wf(),
            (final(self).procs(), ok) == get_init(old(self).procs(), pid),
            final(self).cred_shared() == old(self).cred_shared(),
            final(self).config() == old(self).config(),
    {
        proof {
            assert(old(self).procs().dom() =~= old(self).procs@.dom());
        }
        if self.procs.contains(&pid) {
            return true;
        }
        let ok = self.procs.insert(pid, ProcInfo::zeroed());
        assert(self.procs() =~= old(self).procs().insert(pid, zeroed_proc_info()@) || !ok);
        ok
    }

    /// The tgid of the tracked parent: the first of at most `MAX_ANCESTORS`
    /// ancestors (nearest first) that has a record.
    pub fn execve_find_parent(&self, ancestors: &Vec<u32>) -> (r: Option<u32>)
        requires
            self.wf(),
        ensures
            r == find_parent_key(self.procs(), ancestors@),
            r matches Some(k) ==> self.procs().contains_key(k),
    {
        let n = if ancestors.len() < MAX_ANCESTORS {
            ancestors.len()
        } else {
            MAX_ANCESTORS
        };
        let ghost keys = if ancestors@.len() <= MAX_ANCESTORS {
            ancestors@
        } else {
            ancestors@.take(MAX_ANCESTORS as int)
        };
        assert(keys.len() == n);
        let mut i: usize = 0;
        assert(keys.skip(0) =~= keys);
        while i < n
            invariant
                self.wf(),
                keys.len() == n,
                n <= ancestors@.len(),
                forall|j: int| 0 <= j < n ==> keys[j] == ancestors@[j],
                i <= n,
                find_parent_key(self.procs(), ancestors@) == first_tracked(self.procs(), keys),
                first_tracked(self.procs(), keys) == first_tracked(
                    self.procs(),
                    keys.skip(i as int),
                ),
            decreases n - i,
        {
            assert(keys.skip(i as int).drop_first() =~= keys.skip(i + 1));
            assert(keys.skip(i as int)[0] == ancestors@[i as int]);
            let key = ancestors[i];
            if self.procs.contains(&key) {
                assert(self.procs().contains_key(key));
                return Some(key);
            }
            assert(!self.procs().contains_key(key));
            i += 1;
        }
        None
    }

    /// The record of the tracked parent, if one is found.
    fn parent_record(&self, ancestors: &Vec<u32>) -> (r: Option<ProcInfo>)
        requires
            self.wf(),
        ensures
            match find_parent_key(self.procs(), ancestors@) {
                Some(k) => r is Some && r->0@ == self.procs()[k],
                None => r is None,
            },
    {
        match self.execve_find_parent(ancestors) {
            Some(k) => {
                assert(self.procs().dom() =~= self.procs@.dom());
                let r = self.procs.get(&k);
                r
            },
            None => None,
        }
    }
}

impl ProcMonState {
    /// The exec probe (`sched_process_exec`): finds or creates the record of
    /// the process, records its tracked parent, time and ids, the name of
    /// its executable, its credentials, login uid and arguments (argv[0]
    /// skipped), and takes over the pending credential record of the task.
    /// Fails with the error code of the first failed read, or 0 where the
    /// record cannot be created or the arguments fall short; returns
    /// the record to expose when `expose` is set.
    pub fn try_execve(&mut self, r: &ExecReads, expose: bool) -> (res: Result<Option<ProcInfo>, u32>)
        requires
            old(self).wf(),
        ensures
            final(self).wf(),
            final(self).config() == old(self).config(),
            final(self).procs() == exec_procs(old(self).procs(), old(self).cred_shared(), *r),
            final(self).cred_shared() == exec_creds(old(self).procs(), old(self).cred_shared(), *r),
            match res {
                Ok(Some(p)) => expose && exec_succeeds(old(self).procs(), old(self).cred_shared(), *r)
                    && p@ == final(self).procs()[pid_of(r.pid_tgid)],
                Ok(None) => !expose && exec_succeeds(old(self).procs(), old(self).cred_shared(), *r),
                Err(e) => exec_outcome(old(self).procs(), old(self).cred_shared(), *r).1 == Some(e),
            },
    {
        let pid = (r.pid_tgid >> 32u64) as u32;
        let tid = r.pid_tgid as u32;
        if !self.exec_map_get_init(pid) {
            return Err(0);
        }
        let ghost m1 = self.procs();
        let parent = self.parent_record(&r.ancestors);
        let mut rec = match self.get_proc(pid) {
            Some(p) => p,
            None => return Err(0),
        };
        if let Some(p) = parent {
            rec.ppid = p.pid;
        }
        rec.ktime = r.ktime;
        rec.pid = pid;
        rec.tid = tid;
        let bounds = match r.arg_bounds {
            Ok(b) => b,
            Err(e) => {
                self.store(pid, rec);
                return Err(e as u32);
            },
        };
        let a0 = match &r.first_arg {
            Ok(a) => a,
            Err(e) => {
                self.store(pid, rec);
                return Err(*e as u32);
            },
        };
        let n0: usize = if a0.len() < MAX_ARGS_SIZE {
            a0.len()
        } else {
            MAX_ARGS_SIZE - 1
        };
        let (start, size) = arg_window(bounds.0, bounds.1, n0);
        match &r.filename {
            Ok(f) => {
                str_copy_into(&mut rec.filename, f.as_slice());
            },
            Err(e) => {
                self.store(pid, rec);
                return Err(*e as u32);
            },
        }
        match &r.creds {
            Ok(c) => get_creds(&mut rec, c),
            Err(e) => {
                self.store(pid, rec);
                return Err(*e as u32);
            },
        }
        match r.loginuid {
            Ok(au) => rec.auid = au,
            Err(e) => {
                self.store(pid, rec);
                return Err(e as u32);
            },
        }
        match &r.args {
            Ok(a) => {
                if a.len() < size as usize {
                    self.store(pid, rec);
                    return Err(0);
                }
                rec.args = [0u8; MAX_ARGS_SIZE];
                assert(rec.args@ =~= Seq::new(MAX_ARGS_SIZE as nat, |i: int| 0u8));
                buf_copy_into(&mut rec.args, slice_prefix(a.as_slice(), size as usize));
            },
            Err(e) => {
                self.store(pid, rec);
                return Err(*e as u32);
            },
        }
        match self.cred_shared.get(&r.pid_tgid) {
            Some(ci) => {
                rec.creds.secureexec = ci.secureexec;
                let n = nul_position(&ci.binary_path);
                str_copy_into(&mut rec.binary_path, slice_prefix(&ci.binary_path, n));
                self.cred_shared.remove(&r.pid_tgid);
            },
            None => {},
        }
        self.store(pid, rec);
        if expose {
            Ok(Some(rec))
        } else {
            Ok(None)
        }
    }
}

impl ProcMonState {
    /// The exit probe (`acct_process`): returns the record of the exiting
    /// process to expose when `expose` is set (failing with 0 where there is none)
    /// and removes it from the table.
    pub fn try_exit(&mut self, pid_tgid: u64, expose: bool) -> (res: Result<Option<ProcInfo>, u32>)
        requires
            old(self).wf(),
            expose || old(self).procs().contains_key(pid_of(pid_tgid)),
        ensures
            final(self).wf(),
            final(self).config() == old(self).config(),
            final(self).cred_shared() == old(self).cred_shared(),
            ({
                let pid = pid_of(pid_tgid);
                if old(self).procs().contains_key(pid) {
                    &&& final(self).procs() == old(self).procs().remove(pid)
                    &&& match res {
                        Ok(Some(p)) => expose && p@ == old(self).procs()[pid],
                        Ok(None) => !expose,
                        Err(_) => false,
                    }
                } else {
                    &&& res == Err::<Option<ProcInfo>, u32>(0)
                    &&& final(self).procs() == old(self).procs()
                }
            }),
    {
        let pid = (pid_tgid >> 32u64) as u32;
        let mut out: Option<ProcInfo> = None;
        if expose {
            match self.get_proc(pid) {
                Some(p) => out = Some(p),
                None => return Err(0),
            }
        }
        let removed = self.procs.remove(&pid);
        assert(self.procs() =~= old(self).procs().remove(pid));
        Ok(out)
    }

    /// The `bprm_committing_creds` probe: records, for the exec that follows,
    /// whether the new credentials are set-uid or set-gid and the path of the
    /// binary. The record is dropped where the table is full.
    pub fn try_committing_creds(&mut self, r: &CommitCredsReads) -> (res: Result<(), i32>)
        requires
            old(self).wf(),
            r.binary_path@.len() <= MAX_FILE_PATH,
        ensures
            final(self).wf(),
            final(self).config() == old(self).config(),
            final(self).procs() == old(self).procs(),
            match r.ids {
                Err(e) => res == Err::<(), i32>(e as i32) && final(self).cred_shared() == old(
                    self,
                ).cred_shared(),
                Ok(ids) => {
                    &&& res is Ok
                    &&& final(self).cred_shared().remove(r.pid_tgid) == old(
                        self,
                    ).cred_shared().remove(r.pid_tgid)
                    &&& if old(self).cred_shared().contains_key(r.pid_tgid) || old(
                        self,
                    ).cred_shared().len() < CRED_SHARED_MAP_MAX_ENTRIES {
                        &&& final(self).cred_shared().contains_key(r.pid_tgid)
                        &&& committed_info_ok(
                            final(self).cred_shared()[r.pid_tgid],
                            ids,
                            r.binary_path@,
                        )
                    } else {
                        final(self).cred_shared() == old(self).cred_shared()
                    }
                },
            },
    {
        let ids = match r.ids {
            Ok(ids) => ids,
            Err(e) => return Err(e as i32),
        };
        let mut info = CredSharedInfo {
            secureexec: SecureExec::empty(),
            binary_path: [0u8; MAX_FILE_PATH],
        };
        if ids.euid != ids.uid {
            info.secureexec.insert(SECUREEXEC_SETUID);
        }
        if ids.egid != ids.gid {
            info.secureexec.insert(SECUREEXEC_SETGID);
        }
        proof {
            let a: u32 = if ids.euid != ids.uid {
                1u32
            } else {
                0u32
            };
            let b: u32 = if ids.egid != ids.gid {
                2u32
            } else {
                0u32
            };
            assert((0u32 | a) | b == a | b) by (bit_vector);
            assert(0u32 | a == a) by (bit_vector);
            assert(a | 0u32 == a) by (bit_vector);
            assert(0u32 | 0u32 == 0u32) by (bit_vector);
        }
        assert(info.secureexec.bits == committed_secureexec(ids));
        let ghost zeros = info.binary_path@;
        assert(zeros =~= Seq::new(MAX_FILE_PATH as nat, |i: int| 0u8));
        buf_copy_into(&mut info.binary_path, r.binary_path.as_slice());
        let _ = self.cred_shared.insert(r.pid_tgid, info);
        assert(self.cred_shared().remove(r.pid_tgid) =~= old(self).cred_shared().remove(
            r.pid_tgid,
        ));
        Ok(())
    }

    /// The fork probe (`wake_up_new_task`): gives a new process that has no
    /// record yet one inherited from its tracked parent, marked as coming
    /// from a clone: its ids and time,
    /// and the parent's executable name, binary path, arguments; then its own
    /// credentials. Fails where no tracked parent is found, the record cannot
    /// be created, the process was already recorded (its time is set) or a
    /// read failed.
    pub fn try_wake_up_new_task(&mut self, r: &ForkReads) -> (res: Result<(), u32>)
        requires
            old(self).wf(),
        ensures
            final(self).wf(),
            final(self).config() == old(self).config(),
            final(self).cred_shared() == old(self).cred_shared(),
            final(self).procs() == fork_outcome(old(self).procs(), *r).0,
            match fork_outcome(old(self).procs(), *r).1 {
                None => res is Ok,
                Some(e) => res == Err::<(), u32>(e),
            },
    {
        let tgid = match r.tgid {
            Some(t) => t,
            None => return Err(0),
        };
        let pk = match self.execve_find_parent(&r.ancestors) {
            Some(k) => k,
            None => return Err(0),
        };
        if !self.exec_map_get_init(tgid) {
            return Err(0);
        }
        let parent = match self.get_proc(pk) {
            Some(p) => p,
            None => return Err(0),
        };
        let alias = pk == tgid;
        let mut rec = match self.get_proc(tgid) {
            Some(p) => p,
            None => return Err(0),
        };
        if rec.ktime != 0 {
            return Err(0);
        }
        rec.pid = tgid;
        rec.clonned = true;
        let par = if alias {
            rec
        } else {
            parent
        };
        rec.ppid = par.pid;
        rec.ktime = r.ktime;
        match r.tid {
            Ok(t) => rec.tid = t,
            Err(e) => {
                self.store(tgid, rec);
                return Err(e as u32);
            },
        }
        let par = if alias {
            rec
        } else {
            parent
        };
        let n = nul_position(&par.filename);
        str_copy_into(&mut rec.filename, slice_prefix(&par.filename, n));
        let par = if alias {
            rec
        } else {
            parent
        };
        let n = nul_position(&par.binary_path);
        str_copy_into(&mut rec.binary_path, slice_prefix(&par.binary_path, n));
        let par = if alias {
            rec
        } else {
            parent
        };
        rec.args = par.args;
        match &r.creds {
            Ok(c) => get_creds(&mut rec, c),
            Err(e) => {
                self.store(tgid, rec);
                return Err(*e as u32);
            },
        }
        self.store(tgid, rec);
        Ok(())
    }

    /// Hook for `sched_process_exec`: runs the exec probe with the configured
    /// exposure and gives the event to submit.
    pub fn execve_capture(&mut self, r: &ExecReads) -> (ev: Option<Event>)
        requires
            old(self).wf(),
        ensures
            final(self).wf(),
            final(self).config() == old(self).config(),
            final(self).procs() == exec_procs(old(self).procs(), old(self).cred_shared(), *r),
            final(self).cred_shared() == exec_creds(old(self).procs(), old(self).cred_shared(), *r),
            match ev {
                Some(e) => {
                    &&& old(self).config().expose_events
                    &&& exec_succeeds(old(self).procs(), old(self).cred_shared(), *r)
                    &&& e matches Event::ProcExec(p) && p@ == final(self).procs()[pid_of(r.pid_tgid)]
                },
                None => !old(self).config().expose_events || !exec_succeeds(
                    old(self).procs(),
                    old(self).cred_shared(),
                    *r,
                ),
            },
    {
        let expose = self.config.expose_events;
        match self.try_execve(r, expose) {
            Ok(Some(p)) => Some(Event::ProcExec(p)),
            _ => None,
        }
    }

    /// Hook for `acct_process`: runs the exit probe with the configured
    /// exposure and gives the event to submit.
    pub fn exit_capture(&mut self, pid_tgid: u64) -> (ev: Option<Event>)
        requires
            old(self).wf(),
            old(self).config().expose_events || old(self).procs().contains_key(pid_of(pid_tgid)),
        ensures
            final(self).wf(),
            final(self).config() == old(self).config(),
            final(self).cred_shared() == old(self).cred_shared(),
            final(self).procs() == old(self).procs().remove(pid_of(pid_tgid)),
            match ev {
                Some(e) => {
                    &&& old(self).config().expose_events
                    &&& old(self).procs().contains_key(pid_of(pid_tgid))
                    &&& e matches Event::ProcExit(p) && p@ == old(self).procs()[pid_of(pid_tgid)]
                },
                None => !old(self).config().expose_events || !old(self).procs().contains_key(
                    pid_of(pid_tgid),
                ),
            },
    {
        let expose = self.config.expose_events;
        match self.try_exit(pid_tgid, expose) {
            Ok(Some(p)) => Some(Event::ProcExit(p)),
            _ => None,
        }
    }

    /// Hook for `bprm_committing_creds`: runs the probe; the hook returns 0,
    /// or the error code of a failed read (which denies the exec).
    pub fn creds_capture(&mut self, r: &CommitCredsReads) -> (ret: i32)
        requires
            old(self).wf(),
            r.binary_path@.len() <= MAX_FILE_PATH,
        ensures
            final(self).wf(),
            final(self).config() == old(self).config(),
            final(self).procs() == old(self).procs(),
            ret == match r.ids {
                Ok(_) => 0i32,
                Err(e) => e as i32,
            },
    {
        match self.try_committing_creds(r) {
            Ok(()) => 0,
            Err(e) => e,
        }
    }

    /// Hook for `wake_up_new_task`: runs the fork probe; the hook returns 0,
    /// or the error code of the failure.
    pub fn fork_capture(&mut self, r: &ForkReads) -> (ret: u32)
        requires
            old(self).wf(),
        ensures
            final(self).wf(),
            final(self).config() == old(self).config(),
            final(self).cred_shared() == old(self).cred_shared(),
            final(self).procs() == fork_outcome(old(self).procs(), *r).0,
            ret == match fork_outcome(old(self).procs(), *r).1 {
                None => 0u32,
                Some(e) => e,
            },
    {
        match self.try_wake_up_new_task(r) {
            Ok(()) => 0,
            Err(e) => e,
        }
    }
}

/// The tracked parent is the nearest of the first `MAX_ANCESTORS`
/// ancestors that has a record: every nearer ancestor has none, and no
/// farther ancestor is searched.
pub proof fn lemma_parent_is_nearest_tracked(procs: Map<u32, ProcView>, ancestors: Seq<u32>)
    ensures
        match find_parent_key(procs, ancestors) {
            Some(k) => exists|i: int|
                0 <= i < ancestors.len() && i < MAX_ANCESTORS && ancestors[i] == k
                    && procs.contains_key(k) && forall|j: int|
                    0 <= j < i ==> !procs.contains_key(#[trigger] ancestors[j]),
            None => forall|i: int|
                0 <= i < ancestors.len() && i < MAX_ANCESTORS ==> !procs.contains_key(
                    #[trigger] ancestors[i],
                ),
        },
{
    let keys = if ancestors.len() <= MAX_ANCESTORS {
        ancestors
    } else {
        ancestors.take(MAX_ANCESTORS as int)
    };
    lemma_first_tracked(procs, keys);
    match first_tracked(procs, keys) {
        Some(k) => {
            let i = choose|i: int|
                0 <= i < keys.len() && keys[i] == k && procs.contains_key(k) && forall|j: int|
                    0 <= j < i ==> !procs.contains_key(#[trigger] keys[j]);
            assert forall|j: int| 0 <= j < i implies !procs.contains_key(#[trigger] ancestors[j]) by {
                assert(keys[j] == ancestors[j]);
            }
        },
        None => {
            assert forall|i: int| 0 <= i < ancestors.len() && i < MAX_ANCESTORS implies !procs.contains_key(
                #[trigger] ancestors[i],
            ) by {
                assert(keys[i] == ancestors[i]);
            }
        },
    }
}

proof fn lemma_first_tracked(procs: Map<u32, ProcView>, keys: Seq<u32>)
    ensures
        match first_tracked(procs, keys) {
            Some(k) => exists|i: int|
                0 <= i < keys.len() && keys[i] == k && procs.contains_key(k) && forall|j: int|
                    0 <= j < i ==> !procs.contains_key(#[trigger] keys[j]),
            None => forall|i: int| 0 <= i < keys.len() ==> !procs.contains_key(#[trigger] keys[i]),
        },
    decreases keys.len(),
{
    if keys.len() > 0 {
        if procs.contains_key(keys[0]) {
            assert(0 <= 0 < keys.len() && keys[0] == keys[0]);
        } else {
            let rest = keys.drop_first();
            lemma_first_tracked(procs, rest);
            match first_tracked(procs, rest) {
                Some(k) => {
                    let i = choose|i: int|
                        0 <= i < rest.len() && rest[i] == k && procs.contains_key(k) && forall|j: int|
                            0 <= j < i ==> !procs.contains_key(#[trigger] rest[j]);
                    assert forall|j: int| 0 <= j < i + 1 implies !procs.contains_key(
                        #[trigger] keys[j],
                    ) by {
                        if j > 0 {
                            assert(keys[j] == rest[j - 1]);
                        }
                    }
                    assert(keys[i + 1] == k);
                },
                None => {
                    assert forall|i: int| 0 <= i < keys.len() implies !procs.contains_key(
                        #[trigger] keys[i],
                    ) by {
                        if i > 0 {
                            assert(keys[i] == rest[i - 1]);
                        }
                    }
                },
            }
        }
    }
}

/// A successful exec leaves a record of the process under its pid, with its
/// pid, thread id, time, login uid, every credential field and the
/// executable name (zero-terminated) as read, and its argument
/// buffer holding the arguments after argv[0] (as many as fit before the
/// buffer's last byte), then zeros.
pub proof fn lemma_exec_records_process(
    procs: Map<u32, ProcView>,
    creds: Map<u64, CredSharedInfo>,
    r: ExecReads,
)
    requires
        records_sized(procs),
        exec_succeeds(procs, creds, r),
    ensures
        ({
            let rec = exec_procs(procs, creds, r)[pid_of(r.pid_tgid)];
            &&& exec_procs(procs, creds, r).contains_key(pid_of(r.pid_tgid))
            &&& rec.pid == pid_of(r.pid_tgid)
            &&& rec.tid == tid_of(r.pid_tgid)
            &&& rec.ktime == r.ktime
            &&& r.loginuid matches Ok(au) && rec.auid == au
            &&& r.creds matches Ok(c) && rec.creds.uid == c.uid && rec.creds.euid == c.euid
                && rec.creds.cap_effective == c.cap_effective && rec.creds.cap_inheritable
                == c.cap_inheritable && rec.creds.cap_permitted == c.cap_permitted
            &&& r.filename matches Ok(f) && ({
                let n = str_copy_len(rec.filename.len(), f@);
                &&& n < rec.filename.len()
                &&& forall|i: int| 0 <= i < n ==> #[trigger] rec.filename[i] == f@[i]
                &&& rec.filename[n as int] == 0
            })
            &&& r.arg_bounds matches Ok(b) && r.first_arg matches Ok(a0) && r.args matches Ok(a)
                && ({
                let start = arg_window_start(b.0, str_copy_len(MAX_ARGS_SIZE as nat, a0@));
                let size = arg_window_size(start, b.1);
                &&& size == (if b.1 <= start {
                    0
                } else if b.1 - start < MAX_ARGS_SIZE - 1 {
                    b.1 - start
                } else {
                    MAX_ARGS_SIZE - 1
                })
                &&& size <= a@.len()
                &&& rec.args.len() == MAX_ARGS_SIZE
                &&& forall|i: int| 0 <= i < size ==> #[trigger] rec.args[i] == a@[i]
                &&& forall|i: int| size <= i < MAX_ARGS_SIZE ==> #[trigger] rec.args[i] == 0
            })
        }),
{
}

/// The credentials committed before an exec reach the record of the exec:
/// its secure-exec flags are the committed ones, its binary path the
/// committed path; and the pending record is used up.
pub proof fn lemma_exec_takes_pending_cred(
    procs: Map<u32, ProcView>,
    creds: Map<u64, CredSharedInfo>,
    r: ExecReads,
)
    requires
        exec_succeeds(procs, creds, r),
        creds.contains_key(r.pid_tgid),
    ensures
        ({
            let rec = exec_procs(procs, creds, r)[pid_of(r.pid_tgid)];
            let pending = creds[r.pid_tgid];
            &&& rec.creds.secureexec == pending.secureexec
            &&& exists|prev: Seq<u8>| rec.binary_path == str_copy(prev, until_nul(pending.binary_path@))
            &&& !exec_creds(procs, creds, r).contains_key(r.pid_tgid)
        }),
{
}

/// A record that fork creates is marked as coming from a clone, with the
/// new task's pid, its tracked parent's pid and the time of the fork.
pub proof fn lemma_fork_marks_clone(procs: Map<u32, ProcView>, r: ForkReads)
    requires
        fork_outcome(procs, r).1 is None,
    ensures
        ({
            let t = r.tgid->0;
            let pk = find_parent_key(procs, r.ancestors@)->0;
            &&& r.tgid is Some
            &&& fork_outcome(procs, r).0.contains_key(t)
            &&& fork_outcome(procs, r).0[t].clonned
            &&& fork_outcome(procs, r).0[t].pid == t
            &&& fork_outcome(procs, r).0[t].ktime == r.ktime
            &&& (pk != t ==> fork_outcome(procs, r).0[t].ppid == procs[pk].pid)
        }),
{
}

/// The text before the first zero byte is a prefix of the bytes.
proof fn lemma_until_nul_prefix(s: Seq<u8>)
    ensures
        until_nul(s).len() <= s.len(),
        forall|i: int| 0 <= i < until_nul(s).len() ==> #[trigger] until_nul(s)[i] == s[i],
{
    if exists|i: int| 0 <= i < s.len() && s[i] == 0 {
        let i = choose|i: int| 0 <= i < s.len() && s[i] == 0;
        lemma_first_zero(s, i);
        let w = choose|i: int| 0 <= i < s.len() && s[i] == 0
            && forall|j: int| 0 <= j < i ==> s[j] != 0;
        assert(until_nul(s) == s.take(w));
    }
}

/// Where some byte is zero, there is a first zero byte.
proof fn lemma_first_zero(s: Seq<u8>, i: int)
    requires
        0 <= i < s.len(),
        s[i] == 0,
    ensures
        exists|k: int| 0 <= k < s.len() && s[k] == 0 && forall|j: int| 0 <= j < k ==> s[j] != 0,
    decreases i,
{
    if exists|j: int| 0 <= j < i && s[j] == 0 {
        let j = choose|j: int| 0 <= j < i && s[j] == 0;
        lemma_first_zero(s, j);
    } else {
        assert(0 <= i < s.len() && s[i] == 0 && forall|j: int| 0 <= j < i ==> s[j] != 0);
    }
}

/// Whether `dst` holds the text of `src` (its bytes before the first zero
/// byte), truncated to leave room for a terminator, then a zero byte.
pub open spec fn holds_text_of(dst: Seq<u8>, src: Seq<u8>) -> bool {
    let n = str_copy_len(dst.len(), until_nul(src));
    &&& n < dst.len()
    &&& forall|i: int| 0 <= i < n ==> #[trigger] dst[i] == src[i]
    &&& dst[n as int] == 0
}

/// A record that fork creates for a process with a tracked parent other
/// than itself inherits the parent's executable name, binary path and
/// arguments, and takes the new task's thread id and every field of the
/// credentials read at the fork.
pub proof fn lemma_fork_inherits_from_parent(procs: Map<u32, ProcView>, r: ForkReads)
    requires
        records_sized(procs),
        fork_outcome(procs, r).1 is None,
        r.tgid matches Some(t) && find_parent_key(procs, r.ancestors@) matches Some(pk) && pk != t,
    ensures
        ({
            let t = r.tgid->0;
            let pk = find_parent_key(procs, r.ancestors@)->0;
            let rec = fork_outcome(procs, r).0[t];
            let par = procs[pk];
            &&& fork_outcome(procs, r).0.contains_key(t)
            &&& holds_text_of(rec.filename, par.filename)
            &&& holds_text_of(rec.binary_path, par.binary_path)
            &&& rec.args == par.args
            &&& r.tid matches Ok(tid) && rec.tid == tid
            &&& r.creds matches Ok(c) && rec.creds.uid == c.uid && rec.creds.euid == c.euid
                && rec.creds.cap_effective == c.cap_effective && rec.creds.cap_inheritable
                == c.cap_inheritable && rec.creds.cap_permitted == c.cap_permitted
        }),
{
    let t = r.tgid->0;
    let pk = find_parent_key(procs, r.ancestors@)->0;
    lemma_parent_is_nearest_tracked(procs, r.ancestors@);
    assert(procs.contains_key(pk));
    let par = procs[pk];
    lemma_until_nul_prefix(par.filename);
    lemma_until_nul_prefix(par.binary_path);
    let init = get_init(procs, t);
    assert(record_sized(init.0[t]));
    assert(init.0[pk] == par);
}

/// Fork leaves the table unchanged for a process that is already recorded
/// with its time set: a process gets its record from fork at most once.
pub proof fn lemma_fork_keeps_recorded(procs: Map<u32, ProcView>, r: ForkReads)
    requires
        r.tgid matches Some(t) && procs.contains_key(t) && procs[t].ktime != 0,
    ensures
        fork_outcome(procs, r).0 == procs,
        fork_outcome(procs, r).1 is Some,
{
}

/// The committed secure-exec flags hold set-uid exactly where the effective
/// uid differs from the uid, set-gid exactly where the effective gid differs
/// from the gid, and no other flag.
pub proof fn lemma_committed_secureexec(ids: CommittedIds)
    ensures
        (committed_secureexec(ids) & SECUREEXEC_SETUID != 0) <==> ids.euid != ids.uid,
        (committed_secureexec(ids) & SECUREEXEC_SETGID != 0) <==> ids.egid != ids.gid,
        committed_secureexec(ids) & !SECUREEXEC_ALL == 0,
{
    let a: u32 = if ids.euid != ids.uid {
        1u32
    } else {
        0u32
    };
    let b: u32 = if ids.egid != ids.gid {
        2u32
    } else {
        0u32
    };
    assert(((a == 1u32 || a == 0u32) && (b == 2u32 || b == 0u32)) ==> ((a | b) & 1u32 != 0 <==> a
        == 1u32) && ((a | b) & 2u32 != 0 <==> b == 2u32) && (a | b) & !7u32 == 0) by (bit_vector);
}

/// Writes the credentials that were read into a record.
pub fn get_creds(proc: &mut ProcInfo, c: &CredReads)
    ensures
        final(proc)@ == with_creds(old(proc)@, *c),
{
    proc.creds.uid = c.uid;
    proc.creds.euid = c.euid;
    proc.creds.cap_effective = c.cap_effective;
    proc.creds.cap_inheritable = c.cap_inheritable;
    proc.creds.cap_permitted = c.cap_permitted;
}

/// The argument window that follows argv[0]: its start and its size.
pub fn arg_window(arg_start: u64, arg_end: u64, first_arg_len: usize) -> (w: (u64, u64))
    requires
        first_arg_len < MAX_ARGS_SIZE,
    ensures
        w.0 == arg_window_start(arg_start, first_arg_len as nat),
        w.1 == arg_window_size(w.0, arg_end),
        w.1 < MAX_ARGS_SIZE,
{
    let start = arg_start.wrapping_add(1 + first_arg_len as u64);
    let size: u64 = if arg_end <= start {
        0
    } else if arg_end - start < (MAX_ARGS_SIZE - 1) as u64 {
        arg_end - start
    } else {
        (MAX_ARGS_SIZE - 1) as u64
    };
    (start, size)
}

} // verus!
