//! Turns raw kernel records into high-level process events.

use vstd::prelude::*;

use crate::event::{Event, GTFOBinsMsg, ProcInfo, ProcView, SecureExec, SECUREEXEC_ALL};
use crate::text::{
    is_whitespace, lemma_trim_end_prefix, lossy_chars, no_nul_char, no_zero_byte, nul_to_space, replace_nul_with_space, str_from_bytes, string_from_chars,
    trim_end, trim_end_chars, until_nul, utf8_lossy,
};

verus! {

/// High-level process representation.
#[derive(Clone, Debug)]
pub struct Process {
    /// PID
    pub pid: u32,
    /// TID
    pub tid: u32,
    /// Parent PID
    pub ppid: u32,
    /// UID
    pub uid: u32,
    /// EUID
    pub euid: u32,
    /// login UID
    pub auid: u32,
    pub cap_inheritable: u64,
    pub cap_permitted: u64,
    pub cap_effective: u64,
    pub secureexec: SecureExec,
    /// executable name
    pub filename: String,
    /// full binary path
    pub binary_path: String,
    /// command line arguments
    pub args: String,
    /// cgroup name
    pub cgroup_name: String,
}

/// The command line of a raw record: zero bytes read as spaces, decoded,
/// trailing whitespace removed.
pub open spec fn args_text(args: Seq<u8>) -> Seq<char> {
    trim_end(utf8_lossy(nul_to_space(args)))
}

/// The text of a zero-terminated buffer.
pub open spec fn buffer_text(bytes: Seq<u8>) -> Seq<char> {
    utf8_lossy(until_nul(bytes))
}

/// The command line of a record never ends with whitespace, and is a
/// prefix of the decoded buffer with zero bytes read as spaces.
pub proof fn lemma_args_text_trimmed(args: Seq<u8>)
    ensures
        args_text(args).len() == 0 || !is_whitespace(args_text(args).last()),
        args_text(args) =~= utf8_lossy(nul_to_space(args)).subrange(0, args_text(args).len() as int),
{
    lemma_trim_end_prefix(utf8_lossy(nul_to_space(args)));
}

impl Process {
    /// Constructs the high-level representation of a raw process record.
    pub fn new(proc: ProcInfo) -> (p: Self)
        ensures
            p.pid == proc.pid,
            p.tid == proc.tid,
            p.ppid == proc.ppid,
            p.auid == proc.auid,
            p.uid == proc.creds.uid,
            p.euid == proc.creds.euid,
            p.cap_effective == proc.creds.cap_effective,
            p.cap_permitted == proc.creds.cap_permitted,
            p.cap_inheritable == proc.creds.cap_inheritable,
            p.secureexec.bits == proc.creds.secureexec.bits & SECUREEXEC_ALL,
            p.filename@ == buffer_text(proc.filename@),
            p.binary_path@ == buffer_text(proc.binary_path@),
            p.args@ == args_text(proc.args@),
            p.cgroup_name@ == buffer_text(proc.cgroup_name@),
            no_nul_char(p.args@),
            no_nul_char(p.filename@),
            no_nul_char(p.binary_path@),
            no_nul_char(p.cgroup_name@),
    {
        let mut raw_args = proc.args;
        replace_nul_with_space(&mut raw_args);
        assert(no_zero_byte(raw_args@));
        let mut chars = lossy_chars(&raw_args);
        let ghost decoded = chars@;
        trim_end_chars(&mut chars);
        proof {
            lemma_trim_end_prefix(decoded);
            assert forall|i: int| 0 <= i < chars@.len() implies #[trigger] chars@[i] != '\0' by {
                assert(chars@[i] == decoded[i]);
            }
        }
        let args = string_from_chars(chars.as_slice());
        Process {
            pid: proc.pid,
            tid: proc.tid,
            ppid: proc.ppid,
            auid: proc.auid,
            uid: proc.creds.uid,
            euid: proc.creds.euid,
            cap_effective: proc.creds.cap_effective,
            cap_permitted: proc.creds.cap_permitted,
            cap_inheritable: proc.creds.cap_inheritable,
            secureexec: SecureExec::from_bits_truncate(proc.creds.secureexec.bits()),
            filename: str_from_bytes(&proc.filename),
            binary_path: str_from_bytes(&proc.binary_path),
            args,
            cgroup_name: str_from_bytes(&proc.cgroup_name),
        }
    }
}

/// Nanoseconds in a second.
pub const NANOS_PER_SEC: u64 = 1_000_000_000;

/// The RFC 3339 text, in UTC with milliseconds and a `Z` suffix, of a time
/// given in nanoseconds since the Unix epoch.
pub uninterp spec fn rfc3339_utc_millis(nanos: i64) -> Seq<char>;

/// Calls `chrono::DateTime::<Utc>::to_rfc3339_opts(SecondsFormat::Millis, true)`
/// on the time `nanos` nanoseconds after the Unix epoch. Claimed: the text is
/// `rfc3339_utc_millis(nanos)`.
#[verifier::external_body]
fn format_utc_nanos(nanos: i64) -> (s: String)
    ensures
        s@ == rfc3339_utc_millis(nanos),
{
    chrono::DateTime::from_timestamp_nanos(nanos).to_rfc3339_opts(chrono::SecondsFormat::Millis, true)
}

/// Nanoseconds since the Unix epoch of a kernel time, given the boot time of
/// the system in seconds since the Unix epoch.
pub open spec fn ktime_nanos(boot_time_secs: u64, ktime: u64) -> int {
    boot_time_secs * NANOS_PER_SEC + ktime
}

/// Whether a kernel time can be given as a timestamp.
pub open spec fn ktime_in_range(boot_time_secs: u64, ktime: u64) -> bool {
    ktime_nanos(boot_time_secs, ktime) <= i64::MAX
}

/// The date and time of a kernel time (nanoseconds since boot), given the
/// boot time of the system in seconds since the Unix epoch.
pub fn transmute_ktime(ktime: u64, boot_time_secs: u64) -> (s: String)
    requires
        ktime_in_range(boot_time_secs, ktime),
    ensures
        s@ == rfc3339_utc_millis(ktime_nanos(boot_time_secs, ktime) as i64),
{
    let total: u128 = boot_time_secs as u128 * NANOS_PER_SEC as u128 + ktime as u128;
    format_utc_nanos(total as i64)
}

/// The high-level process of a raw record: what `Process::new` gives.
pub open spec fn process_of(p: Process, proc: ProcView) -> bool {
    &&& p.pid == proc.pid
    &&& p.tid == proc.tid
    &&& p.ppid == proc.ppid
    &&& p.auid == proc.auid
    &&& p.uid == proc.creds.uid
    &&& p.euid == proc.creds.euid
    &&& p.cap_effective == proc.creds.cap_effective
    &&& p.cap_permitted == proc.creds.cap_permitted
    &&& p.cap_inheritable == proc.creds.cap_inheritable
    &&& p.secureexec.bits == proc.creds.secureexec.bits & SECUREEXEC_ALL
    &&& p.filename@ == buffer_text(proc.filename)
    &&& p.binary_path@ == buffer_text(proc.binary_path)
    &&& p.args@ == args_text(proc.args)
    &&& p.cgroup_name@ == buffer_text(proc.cgroup_name)
}

/// Process execution event.
#[derive(Clone, Debug)]
pub struct ProcessExec {
    /// Process information
    pub process: Process,
    /// Event's date and time
    pub timestamp: String,
}

/// Process exit event.
#[derive(Clone, Debug)]
pub struct ProcessExit {
    /// Process information
    pub process: Process,
    /// Event's date and time
    pub timestamp: String,
}

/// GTFOBins execution event.
#[derive(Clone, Debug)]
pub struct GTFOBinsEvent {
    /// Process information
    pub process: Process,
    /// Event's date and time
    pub timestamp: String,
}

impl ProcessExec {
    /// Constructs the high-level event of a raw exec record stamped with the
    /// kernel time `ktime`, given the system boot time.
    pub fn new(event: ProcInfo, ktime: u64, boot_time_secs: u64) -> (e: Self)
        requires
            ktime_in_range(boot_time_secs, ktime),
        ensures
            process_of(e.process, event@),
            e.timestamp@ == rfc3339_utc_millis(ktime_nanos(boot_time_secs, ktime) as i64),
    {
        ProcessExec {
            timestamp: transmute_ktime(ktime, boot_time_secs),
            process: Process::new(event),
        }
    }
}

impl ProcessExit {
    /// Constructs the high-level event of a raw exit record stamped with the
    /// kernel time `ktime`, given the system boot time.
    pub fn new(event: ProcInfo, ktime: u64, boot_time_secs: u64) -> (e: Self)
        requires
            ktime_in_range(boot_time_secs, ktime),
        ensures
            process_of(e.process, event@),
            e.timestamp@ == rfc3339_utc_millis(ktime_nanos(boot_time_secs, ktime) as i64),
    {
        ProcessExit {
            timestamp: transmute_ktime(ktime, boot_time_secs),
            process: Process::new(event),
        }
    }
}

impl GTFOBinsEvent {
    /// Constructs the high-level event of a raw GTFOBins message, stamped
    /// with the kernel time of its process record.
    pub fn new(event: GTFOBinsMsg, boot_time_secs: u64) -> (e: Self)
        requires
            ktime_in_range(boot_time_secs, event.process.ktime),
        ensures
            process_of(e.process, event.process@),
            e.timestamp@ == rfc3339_utc_millis(
                ktime_nanos(boot_time_secs, event.process.ktime) as i64,
            ),
    {
        GTFOBinsEvent {
            timestamp: transmute_ktime(event.process.ktime, boot_time_secs),
            process: Process::new(event.process),
        }
    }
}

/// A raw event transmuted into its high-level form.
#[derive(Clone, Debug)]
pub enum TransmutedEvent {
    ProcessExec(ProcessExec),
    ProcessExit(ProcessExit),
    GTFOBins(GTFOBinsEvent),
}

/// The kernel time a raw event is stamped with.
pub open spec fn event_ktime(event: Event) -> u64 {
    match event {
        Event::ProcExec(p) => p.ktime,
        Event::ProcExit(p) => p.ktime,
        Event::GTFOBins(m) => m.process.ktime,
    }
}

/// Transmutes raw eBPF events into their high-level forms.
pub struct Transmuter;

impl Transmuter {
    /// Transmutes a raw event into its high-level form: exec and exit records
    /// become process exec and exit events, GTFOBins messages GTFOBins
    /// events, each stamped with the kernel time of its record.
    pub fn transmute(&self, event: Event, boot_time_secs: u64) -> (t: TransmutedEvent)
        requires
            ktime_in_range(boot_time_secs, event_ktime(event)),
        ensures
            match event {
                Event::ProcExec(p) => t matches TransmutedEvent::ProcessExec(e) && process_of(
                    e.process,
                    p@,
                ) && e.timestamp@ == rfc3339_utc_millis(ktime_nanos(boot_time_secs, p.ktime) as i64),
                Event::ProcExit(p) => t matches TransmutedEvent::ProcessExit(e) && process_of(
                    e.process,
                    p@,
                ) && e.timestamp@ == rfc3339_utc_millis(ktime_nanos(boot_time_secs, p.ktime) as i64),
                Event::GTFOBins(m) => t matches TransmutedEvent::GTFOBins(e) && process_of(
                    e.process,
                    m.process@,
                ) && e.timestamp@ == rfc3339_utc_millis(
                    ktime_nanos(boot_time_secs, m.process.ktime) as i64,
                ),
            },
    {
        match event {
            Event::ProcExec(p) => TransmutedEvent::ProcessExec(
                ProcessExec::new(p, p.ktime, boot_time_secs),
            ),
            Event::ProcExit(p) => TransmutedEvent::ProcessExit(
                ProcessExit::new(p, p.ktime, boot_time_secs),
            ),
            Event::GTFOBins(m) => TransmutedEvent::GTFOBins(GTFOBinsEvent::new(m, boot_time_secs)),
        }
    }

    /// Transmutes a raw event as `transmute` does, or gives `None` where its
    /// kernel time lies too far past the boot time to be given as a timestamp.
    pub fn try_transmute(&self, event: Event, boot_time_secs: u64) -> (t: Option<TransmutedEvent>)
        ensures
            t is None <==> !ktime_in_range(boot_time_secs, event_ktime(event)),
            t matches Some(te) ==> match event {
                Event::ProcExec(p) => te matches TransmutedEvent::ProcessExec(e) && process_of(
                    e.process,
                    p@,
                ) && e.timestamp@ == rfc3339_utc_millis(ktime_nanos(boot_time_secs, p.ktime) as i64),
                Event::ProcExit(p) => te matches TransmutedEvent::ProcessExit(e) && process_of(
                    e.process,
                    p@,
                ) && e.timestamp@ == rfc3339_utc_millis(ktime_nanos(boot_time_secs, p.ktime) as i64),
                Event::GTFOBins(m) => te matches TransmutedEvent::GTFOBins(e) && process_of(
                    e.process,
                    m.process@,
                ) && e.timestamp@ == rfc3339_utc_millis(
                    ktime_nanos(boot_time_secs, m.process.ktime) as i64,
                ),
            },
    {
        let ktime: u64 = match event {
            Event::ProcExec(p) => p.ktime,
            Event::ProcExit(p) => p.ktime,
            Event::GTFOBins(m) => m.process.ktime,
        };
        assert(boot_time_secs as u128 * NANOS_PER_SEC as u128 <= 0xffff_ffff_ffff_ffffu128
            * 1_000_000_000u128) by (nonlinear_arith);
        let total: u128 = boot_time_secs as u128 * NANOS_PER_SEC as u128 + ktime as u128;
        if total > i64::MAX as u128 {
            None
        } else {
            Some(self.transmute(event, boot_time_secs))
        }
    }
}

} // verus!
