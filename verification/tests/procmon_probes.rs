use bombini::event::{Event, ProcInfo, SECUREEXEC_SETGID, SECUREEXEC_SETUID};
use bombini::procmon::{
    arg_window, get_creds, CommitCredsReads, CommittedIds, Config, CredReads, ExecReads, ForkReads,
    ProcMonState, PROC_MAP_MAX_ENTRIES,
};
use bombini::transmuter::Process;

const PID_TGID: u64 = (100u64 << 32) | 101;

fn creds(uid: u32, euid: u32) -> CredReads {
    CredReads { uid, euid, cap_inheritable: 0, cap_permitted: 0x1ff, cap_effective: 0x1ff }
}

fn exec_reads(pid_tgid: u64, ancestors: Vec<u32>) -> ExecReads {
    // argv in user memory: "sudo\0-l\0ls\0" at 1000..1011
    let (start, size) = arg_window(1000, 1011, 4);
    assert_eq!((start, size), (1005, 6));
    ExecReads {
        pid_tgid,
        ancestors,
        ktime: 5_000,
        arg_bounds: Ok((1000, 1011)),
        first_arg: Ok(b"sudo".to_vec()),
        filename: Ok(b"sudo".to_vec()),
        creds: Ok(creds(1000, 1000)),
        loginuid: Ok(1000),
        args: Ok(b"-l\0ls\0".to_vec()),
    }
}

fn text(bytes: &[u8]) -> String {
    let end = bytes.iter().position(|b| *b == 0).unwrap_or(bytes.len());
    String::from_utf8_lossy(&bytes[..end]).to_string()
}

#[test]
fn arg_window_truncates_size() {
    assert_eq!(arg_window(0, 10, 3), (4, 6));
    // a window longer than the buffer keeps its first 1023 bytes
    assert_eq!(arg_window(0, 5000, 3), (4, 1023));
    assert_eq!(arg_window(0, 1028, 3), (4, 1023));
    assert_eq!(arg_window(0, 1030, 5), (6, 1023));
    assert_eq!(arg_window(0, 1026, 3), (4, 1022));
    // an area that ends before the window starts gives an empty window
    assert_eq!(arg_window(10, 5, 0).1, 0);
    assert_eq!(arg_window(10, 11, 0).1, 0);
}

#[test]
fn exec_args_hold_only_the_arguments() {
    let mut s = ProcMonState::new();
    // argv == ["/usr/bin/ls", "-l"] at 2000..2015
    let mut r = exec_reads(PID_TGID, vec![]);
    r.arg_bounds = Ok((2000, 2015));
    r.first_arg = Ok(b"/usr/bin/ls".to_vec());
    r.args = Ok(b"-l\0".to_vec());
    s.try_execve(&r, false).unwrap();
    let p = s.get_proc(100).unwrap();
    assert_eq!(&p.args[..3], b"-l\0");
    assert!(p.args[3..].iter().all(|b| *b == 0));
    assert_eq!(Process::new(p).args, "-l");
    // a later exec with shorter arguments leaves nothing of the earlier ones
    let mut r2 = exec_reads(PID_TGID, vec![]);
    r2.arg_bounds = Ok((3000, 3003));
    r2.first_arg = Ok(b"x".to_vec());
    r2.args = Ok(b"y\0".to_vec());
    s.try_execve(&r2, false).unwrap();
    let p2 = s.get_proc(100).unwrap();
    assert_eq!(&p2.args[..2], b"y\0");
    assert!(p2.args[2..].iter().all(|b| *b == 0));
}

#[test]
fn exec_long_args_are_truncated() {
    let mut s = ProcMonState::new();
    let long: Vec<u8> = (0..1030u32).map(|i| b'a' + (i % 26) as u8).collect();
    let mut r = exec_reads(PID_TGID, vec![]);
    // argv[0] == "ls" at 0..3, then 1030 argument bytes
    r.arg_bounds = Ok((0, 3 + 1030));
    r.first_arg = Ok(b"ls".to_vec());
    r.args = Ok(long.clone());
    s.try_execve(&r, false).unwrap();
    let p = s.get_proc(100).unwrap();
    assert_eq!(&p.args[..1023], &long[..1023]);
    assert_eq!(p.args[1023], 0);
}

#[test]
fn exec_records_the_process_and_consumes_creds() {
    let mut s = ProcMonState::new();
    let ret = s.creds_capture(&CommitCredsReads {
        pid_tgid: PID_TGID,
        ids: Ok(CommittedIds { euid: 0, uid: 1000, egid: 1000, gid: 1000 }),
        binary_path: b"/usr/bin/sudo\0".to_vec(),
    });
    assert_eq!(ret, 0);
    let r = s.try_execve(&exec_reads(PID_TGID, vec![]), false).unwrap();
    assert!(r.is_none());
    let p = s.get_proc(100).unwrap();
    assert_eq!((p.pid, p.tid, p.ppid, p.ktime, p.auid), (100, 101, 0, 5_000, 1000));
    assert_eq!(text(&p.filename), "sudo");
    assert_eq!(text(&p.binary_path), "/usr/bin/sudo");
    assert_eq!(&p.args[..6], b"-l\0ls\0");
    assert_eq!(p.creds.secureexec.bits(), SECUREEXEC_SETUID);
    assert_eq!(Process::new(p).args, "-l ls");
    // the pending credential record was used up: a second exec keeps the flags it had
    let mut again = exec_reads(PID_TGID, vec![]);
    again.ktime = 6_000;
    s.try_execve(&again, false).unwrap();
    let p2 = s.get_proc(100).unwrap();
    assert_eq!(p2.ktime, 6_000);
    assert_eq!(p2.creds.secureexec.bits(), SECUREEXEC_SETUID);
}

#[test]
fn committed_creds_flags() {
    let mut s = ProcMonState::new();
    let pid_tgid = (7u64 << 32) | 7;
    s.creds_capture(&CommitCredsReads {
        pid_tgid,
        ids: Ok(CommittedIds { euid: 5, uid: 5, egid: 0, gid: 10 }),
        binary_path: vec![],
    });
    s.try_execve(&exec_reads(pid_tgid, vec![]), false).unwrap();
    assert_eq!(s.get_proc(7).unwrap().creds.secureexec.bits(), SECUREEXEC_SETGID);
}

#[test]
fn failed_creds_read_is_returned_by_the_hook() {
    let mut s = ProcMonState::new();
    let ret = s.creds_capture(&CommitCredsReads { pid_tgid: 1, ids: Err(-14), binary_path: vec![] });
    assert_eq!(ret, -14);
}

#[test]
fn exec_exposes_event_when_configured() {
    let mut s = ProcMonState::new();
    assert!(s.execve_capture(&exec_reads(PID_TGID, vec![])).is_none());
    s.set_config(Config { expose_events: true });
    match s.execve_capture(&exec_reads(PID_TGID, vec![])) {
        Some(Event::ProcExec(p)) => assert_eq!(p.pid, 100),
        _ => panic!("expected an exec event"),
    }
}

#[test]
fn exec_stops_at_failed_read_keeping_what_it_wrote() {
    let mut s = ProcMonState::new();
    let mut r = exec_reads(PID_TGID, vec![]);
    r.filename = Err(-14);
    assert_eq!(s.try_execve(&r, true).unwrap_err(), (-14i64) as u32);
    let p = s.get_proc(100).unwrap();
    assert_eq!((p.pid, p.tid, p.ktime), (100, 101, 5_000));
    assert!(p.args.iter().all(|b| *b == 0));
    assert_eq!(p.filename, [0u8; 32]);
}

#[test]
fn exec_finds_tracked_parent_within_four_ancestors() {
    let mut s = ProcMonState::new();
    s.try_execve(&exec_reads((50u64 << 32) | 50, vec![]), false).unwrap();
    assert_eq!(s.execve_find_parent(&vec![9, 8, 50]), Some(50));
    assert_eq!(s.execve_find_parent(&vec![9, 8, 7, 6, 50]), None);
    s.try_execve(&exec_reads(PID_TGID, vec![1, 2, 50]), false).unwrap();
    assert_eq!(s.get_proc(100).unwrap().ppid, 50);
}

#[test]
fn fork_inherits_from_parent_once() {
    let mut s = ProcMonState::new();
    s.try_execve(&exec_reads(PID_TGID, vec![]), false).unwrap();
    let fork = ForkReads {
        tgid: Some(200),
        ancestors: vec![100],
        ktime: 9_000,
        tid: Ok(200),
        creds: Ok(creds(1000, 1000)),
    };
    assert_eq!(s.fork_capture(&fork), 0);
    let c = s.get_proc(200).unwrap();
    assert_eq!((c.pid, c.tid, c.ppid, c.ktime), (200, 200, 100, 9_000));
    assert_eq!(text(&c.filename), "sudo");
    assert_eq!(c.args, s.get_proc(100).unwrap().args);
    assert!(c.clonned);
    assert!(!s.get_proc(100).unwrap().clonned);
    let mut later = fork;
    later.ktime = 10_000;
    later.ancestors = vec![100];
    assert!(s.try_wake_up_new_task(&later).is_err());
    assert_eq!(s.get_proc(200).unwrap().ktime, 9_000);
}

#[test]
fn fork_without_tracked_parent_fails() {
    let mut s = ProcMonState::new();
    let fork = ForkReads { tgid: Some(3), ancestors: vec![1, 2], ktime: 1, tid: Ok(3), creds: Ok(creds(0, 0)) };
    assert_eq!(s.try_wake_up_new_task(&fork), Err(0));
    assert!(s.get_proc(3).is_none());
}

#[test]
fn fork_read_failure_returns_its_code() {
    let mut s = ProcMonState::new();
    s.try_execve(&exec_reads(PID_TGID, vec![]), false).unwrap();
    let fork = ForkReads { tgid: Some(300), ancestors: vec![100], ktime: 1, tid: Err(-14), creds: Ok(creds(0, 0)) };
    assert_eq!(s.fork_capture(&fork), (-14i64) as u32);
    let c = s.get_proc(300).unwrap();
    assert_eq!((c.pid, c.ppid, c.ktime), (300, 100, 1));
}

#[test]
fn exit_removes_the_record() {
    let mut s = ProcMonState::new();
    s.set_config(Config { expose_events: true });
    s.try_execve(&exec_reads(PID_TGID, vec![]), false).unwrap();
    match s.exit_capture(PID_TGID) {
        Some(Event::ProcExit(p)) => assert_eq!(p.pid, 100),
        _ => panic!("expected an exit event"),
    }
    assert!(s.get_proc(100).is_none());
    assert!(s.exit_capture(PID_TGID).is_none());
}

#[test]
fn table_is_bounded() {
    let mut s = ProcMonState::new();
    for pid in 0..PROC_MAP_MAX_ENTRIES as u32 {
        assert!(s.exec_map_get_init(pid));
    }
    assert!(!s.exec_map_get_init(5_000));
    assert!(s.exec_map_get_init(7));
    let r = exec_reads(5_000u64 << 32, vec![]);
    assert!(s.try_execve(&r, true).is_err());
}

#[test]
fn creds_are_copied_into_record() {
    let mut p = ProcInfo::zeroed();
    get_creds(&mut p, &CredReads { uid: 1, euid: 2, cap_inheritable: 3, cap_permitted: 4, cap_effective: 5 });
    assert_eq!((p.creds.uid, p.creds.euid, p.creds.cap_inheritable, p.creds.cap_permitted, p.creds.cap_effective), (1, 2, 3, 4, 5));
}

#[test]
fn exec_and_exit_failure_codes() {
    let mut s = ProcMonState::new();
    let mut r = exec_reads(PID_TGID, vec![]);
    r.args = Ok(b"-l".to_vec());
    assert_eq!(s.try_execve(&r, false).unwrap_err(), 0);
    let mut r2 = exec_reads(PID_TGID, vec![]);
    r2.loginuid = Err(-3);
    assert_eq!(s.try_execve(&r2, false).unwrap_err(), (-3i64) as u32);
    assert_eq!(s.try_exit((999u64 << 32) | 999, true).unwrap_err(), 0);
}
