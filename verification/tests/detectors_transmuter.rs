use bombini::config::Config;
use bombini::detector::{
    detector_kind, gtfobins_min_kernel_version, gtfobins_prefix_len, procmon_config_from_yaml_text,
    procmon_min_kernel_version, DetectorConfigError, DetectorKind, GTFOBinsConfig, KernelVersion,
};
use bombini::event::{Event, GTFOBinsMsg, ProcInfo, SECUREEXEC_SETUID};
use bombini::gtfobins::{gtfobins_key, GTFOBINS_ARGS_OFFSET, GTFOBINS_KEY_SIZE};
use bombini::registry::{plan_detectors, Registry};
use bombini::transmuter::{transmute_ktime, Process, ProcessExec, ProcessExit, TransmutedEvent, Transmuter};

#[test]
fn gtfobins_key_layout() {
    let k = gtfobins_key("python -c import");
    assert_eq!(&k[..7], b"python\0");
    assert_eq!(&k[GTFOBINS_ARGS_OFFSET..GTFOBINS_ARGS_OFFSET + 10], b"-c\0import\0");
    assert!(k[GTFOBINS_ARGS_OFFSET + 10..].iter().all(|b| *b == 0));
    assert!(k[7..GTFOBINS_ARGS_OFFSET].iter().all(|b| *b == 0));
}

#[test]
fn gtfobins_key_empty_words() {
    let k = gtfobins_key("  x");
    assert_eq!(k[GTFOBINS_ARGS_OFFSET + 1], b'x');
    assert!(k.iter().enumerate().all(|(i, b)| i == GTFOBINS_ARGS_OFFSET + 1 || *b == 0));
    let k = gtfobins_key("");
    assert!(k.iter().all(|b| *b == 0));
}

#[test]
fn gtfobins_key_skips_words_that_do_not_fit() {
    let long = "a".repeat(GTFOBINS_KEY_SIZE);
    let k = gtfobins_key(&format!("{} vim", long));
    assert_eq!(&k[..3], b"vim");
    assert!(k[3..].iter().all(|b| *b == 0));
    assert_eq!(gtfobins_prefix_len(), (GTFOBINS_KEY_SIZE * 8) as u32);
}

#[test]
fn gtfobins_config_from_yaml() {
    let text = "maps:\n  gtfobins:\n    - key: python -c\n      value: 1\n    - key: vim\n      value: 4294967298\n";
    let c = GTFOBinsConfig::from_yaml_text(text).unwrap();
    assert_eq!(c.gtfobins_entries.len(), 2);
    assert_eq!(c.gtfobins_entries[0].0, gtfobins_key("python -c"));
    assert_eq!(c.gtfobins_entries[0].1, 1);
    assert_eq!(c.gtfobins_entries[1].0, gtfobins_key("vim"));
    assert_eq!(c.gtfobins_entries[1].1, 2);
    let none = GTFOBinsConfig::from_yaml_text("enforce: true\n").unwrap();
    assert!(none.gtfobins_entries.is_empty());
}

#[test]
fn gtfobins_config_errors() {
    assert!(matches!(
        GTFOBinsConfig::from_yaml_text("maps:\n  gtfobins:\n    - key: vim\n"),
        Err(DetectorConfigError::InvalidEntry)
    ));
    assert!(matches!(GTFOBinsConfig::from_yaml_text(""), Err(DetectorConfigError::NoDocument)));
    assert!(matches!(GTFOBinsConfig::from_yaml_text("a: 'x"), Err(DetectorConfigError::Yaml(_))));
}

#[test]
fn procmon_config_expose_events() {
    assert!(procmon_config_from_yaml_text("expose-events: true\n").unwrap().expose_events);
    assert!(!procmon_config_from_yaml_text("expose-events: yes please\n").unwrap().expose_events);
    assert!(!procmon_config_from_yaml_text("other: 1\n").unwrap().expose_events);
    assert!(matches!(procmon_config_from_yaml_text(""), Err(DetectorConfigError::NoDocument)));
}

#[test]
fn kernel_versions() {
    let v = procmon_min_kernel_version();
    assert_eq!((v.major, v.minor, v.patch), (5, 10, 0));
    let g = gtfobins_min_kernel_version();
    assert_eq!((g.major, g.minor, g.patch), (5, 8, 0));
    assert!(v.at_least(&g));
    assert!(!g.at_least(&v));
    assert!(KernelVersion::new(6, 0, 0).at_least(&v));
    assert!(v.at_least(&v));
    assert!(!KernelVersion::new(5, 10, 0).at_least(&KernelVersion::new(5, 10, 1)));
}

#[test]
fn detector_names() {
    assert_eq!(detector_kind("procmon"), Some(DetectorKind::ProcMon));
    assert_eq!(detector_kind("io_uring"), Some(DetectorKind::IoUring));
    assert_eq!(detector_kind("histfile"), Some(DetectorKind::HistFile));
    assert_eq!(detector_kind("filemon"), Some(DetectorKind::FileMon));
    assert_eq!(detector_kind("gtfobins"), Some(DetectorKind::GTFOBins));
    assert_eq!(detector_kind("ProcMon"), None);
}

#[test]
fn plan_stops_at_unknown_detector() {
    let mut c = Config::default();
    c.bpf_objs = Some("/obj".to_string());
    c.config_dir = "/etc/bombini".to_string();
    c.detectors = Some(vec!["procmon".to_string(), "histfile".to_string(), "bogus".to_string(), "filemon".to_string()]);
    let (plans, unknown) = plan_detectors(&c);
    assert_eq!(plans.len(), 2);
    assert_eq!(plans[0].name, "procmon");
    assert_eq!(plans[0].kind, DetectorKind::ProcMon);
    assert_eq!(plans[0].obj_path, "/obj/procmon");
    assert_eq!(plans[0].config_path.as_deref(), Some("/etc/bombini/procmon.yaml"));
    assert_eq!(plans[1].obj_path, "/obj/histfile");
    assert_eq!(plans[1].config_path, None);
    assert_eq!(unknown.as_deref(), Some("bogus"));
}

#[test]
fn plan_without_detectors_is_empty() {
    let c = Config::default();
    let (plans, unknown) = plan_detectors(&c);
    assert!(plans.is_empty());
    assert!(unknown.is_none());
}

#[test]
fn plan_paths_with_trailing_slash() {
    let mut c = Config::default();
    c.bpf_objs = Some("/obj/".to_string());
    c.config_dir = "cfg".to_string();
    c.detectors = Some(vec!["gtfobins".to_string(), "io_uring".to_string()]);
    let (plans, unknown) = plan_detectors(&c);
    assert_eq!(plans[0].obj_path, "/obj/gtfobins");
    assert_eq!(plans[0].config_path.as_deref(), Some("cfg/gtfobins.yaml"));
    assert_eq!(plans[1].obj_path, "/obj/io_uring");
    assert!(unknown.is_none());
}

#[test]
fn registry_records_names() {
    let mut r = Registry::new();
    assert!(!r.contains("procmon"));
    r.insert("procmon");
    r.insert("procmon");
    r.insert("gtfobins");
    assert!(r.contains("procmon"));
    assert!(r.contains("gtfobins"));
    assert!(!r.contains("filemon"));
}

fn record() -> ProcInfo {
    let mut p = ProcInfo::zeroed();
    p.pid = 10;
    p.tid = 11;
    p.ppid = 1;
    p.auid = 1000;
    p.ktime = 1_500_000_000;
    p.creds.uid = 1000;
    p.creds.euid = 0;
    p.creds.cap_effective = 7;
    p.creds.secureexec.bits = SECUREEXEC_SETUID | 0x80;
    p.filename[..4].copy_from_slice(b"bash");
    p.binary_path[..9].copy_from_slice(b"/bin/bash");
    p.args[..12].copy_from_slice(b"-c\0echo hi\0\0");
    p
}

#[test]
fn process_from_record() {
    let p = Process::new(record());
    assert_eq!((p.pid, p.tid, p.ppid, p.auid, p.uid, p.euid), (10, 11, 1, 1000, 1000, 0));
    assert_eq!(p.cap_effective, 7);
    assert_eq!(p.secureexec.bits, SECUREEXEC_SETUID);
    assert_eq!(p.filename, "bash");
    assert_eq!(p.binary_path, "/bin/bash");
    assert_eq!(p.args, "-c echo hi");
    assert_eq!(p.cgroup_name, "");
}

#[test]
fn process_args_invalid_utf8_replaced() {
    let mut r = record();
    r.args[..4].copy_from_slice(b"a\xffb\0");
    let p = Process::new(r);
    assert!(p.args.starts_with("a\u{fffd}b"));
}

#[test]
fn timestamps() {
    assert_eq!(transmute_ktime(1_500_000_000, 1_700_000_000), "2023-11-14T22:13:21.500Z");
    assert_eq!(transmute_ktime(0, 0), "1970-01-01T00:00:00.000Z");
    let e = ProcessExec::new(record(), 2_000_000, 1_700_000_000);
    assert_eq!(e.timestamp, "2023-11-14T22:13:20.002Z");
    assert_eq!(e.process.pid, 10);
    let x = ProcessExit::new(record(), 0, 1_700_000_000);
    assert_eq!(x.timestamp, "2023-11-14T22:13:20.000Z");
}

#[test]
fn transmute_by_event_kind() {
    let t = Transmuter;
    match t.transmute(Event::ProcExec(record()), 1_700_000_000) {
        TransmutedEvent::ProcessExec(e) => {
            assert_eq!(e.timestamp, "2023-11-14T22:13:21.500Z");
            assert_eq!(e.process.args, "-c echo hi");
        }
        _ => panic!("expected exec"),
    }
    match t.transmute(Event::ProcExit(record()), 1_700_000_000) {
        TransmutedEvent::ProcessExit(e) => assert_eq!(e.process.filename, "bash"),
        _ => panic!("expected exit"),
    }
    match t.transmute(Event::GTFOBins(GTFOBinsMsg { process: record() }), 1_700_000_000) {
        TransmutedEvent::GTFOBins(e) => assert_eq!(e.process.binary_path, "/bin/bash"),
        _ => panic!("expected gtfobins"),
    }
}

#[test]
fn try_transmute_refuses_times_past_the_timestamp_range() {
    let t = Transmuter;
    let mut r = record();
    r.ktime = u64::MAX;
    assert!(t.try_transmute(Event::ProcExec(r), 1_700_000_000).is_none());
    assert!(t.try_transmute(Event::ProcExit(record()), u64::MAX / 1_000_000_000).is_none());
    match t.try_transmute(Event::GTFOBins(GTFOBinsMsg { process: record() }), 1_700_000_000) {
        Some(TransmutedEvent::GTFOBins(e)) => assert_eq!(e.timestamp, "2023-11-14T22:13:21.500Z"),
        _ => panic!("expected gtfobins"),
    }
}

#[test]
fn plan_later_paths_follow_pop() {
    let mut c = Config::default();
    c.bpf_objs = Some("/obj//".to_string());
    c.config_dir = "cfg//".to_string();
    c.detectors = Some(vec!["procmon".to_string(), "gtfobins".to_string()]);
    let (plans, unknown) = plan_detectors(&c);
    assert_eq!(plans[0].obj_path, "/obj//procmon");
    assert_eq!(plans[0].config_path.as_deref(), Some("cfg//procmon.yaml"));
    assert_eq!(plans[1].obj_path, "/obj/gtfobins");
    assert_eq!(plans[1].config_path.as_deref(), Some("cfg/gtfobins.yaml"));
    assert!(unknown.is_none());
}

#[test]
fn process_args_hold_no_nul() {
    let mut r = record();
    r.args[..6].copy_from_slice(b"a\0\xc3\0b\0");
    let p = Process::new(r);
    assert!(!p.args.contains('\0'));
    assert!(p.args.starts_with("a \u{fffd} b"));
}
