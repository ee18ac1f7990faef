use bombini::event::{
    Event, GTFOBinsMsg, ProcInfo, SecureExec, MSG_GTFOBINS, MSG_PROCEXEC, MSG_PROCEXIT,
    SECUREEXEC_FILE_CAPS, SECUREEXEC_SETGID, SECUREEXEC_SETUID,
};
use bombini::path::push_path;
use bombini::text::{char_is_whitespace, nul_position, replace_nul_with_space, str_from_bytes, trim_end_chars};

#[test]
fn secureexec_truncates_unknown_bits() {
    let s = SecureExec::from_bits_truncate(0xffff_fffc);
    assert_eq!(s.bits(), SECUREEXEC_FILE_CAPS);
    let s = SecureExec::from_bits_truncate(SECUREEXEC_SETUID | SECUREEXEC_SETGID);
    assert!(s.contains(SECUREEXEC_SETUID));
    assert!(s.contains(SECUREEXEC_SETGID));
    assert!(!s.contains(SECUREEXEC_FILE_CAPS));
}

#[test]
fn secureexec_insert_sets_flag() {
    let mut s = SecureExec::empty();
    assert_eq!(s.bits(), 0);
    s.insert(SECUREEXEC_SETGID);
    assert_eq!(s.bits(), SECUREEXEC_SETGID);
    s.insert(SECUREEXEC_SETGID);
    assert_eq!(s.bits(), SECUREEXEC_SETGID);
}

#[test]
fn event_message_codes() {
    let p = ProcInfo::zeroed();
    assert_eq!(Event::ProcExec(p).msg_code(), MSG_PROCEXEC);
    assert_eq!(Event::ProcExit(p).msg_code(), MSG_PROCEXIT);
    assert_eq!(Event::GTFOBins(GTFOBinsMsg { process: p }).msg_code(), MSG_GTFOBINS);
    assert_eq!(MSG_GTFOBINS, 32);
}

#[test]
fn zeroed_record_is_all_zero() {
    let p = ProcInfo::zeroed();
    assert_eq!(p.pid, 0);
    assert_eq!(p.ktime, 0);
    assert!(p.args.iter().all(|b| *b == 0));
    assert!(p.filename.iter().all(|b| *b == 0));
    assert!(p.binary_path.iter().all(|b| *b == 0));
}

#[test]
fn trim_end_removes_trailing_whitespace_only() {
    let mut v: Vec<char> = "  a b \t\n ".chars().collect();
    trim_end_chars(&mut v);
    assert_eq!(v.iter().collect::<String>(), "  a b");
    let mut v: Vec<char> = "x\u{3000}\u{a0}".chars().collect();
    trim_end_chars(&mut v);
    assert_eq!(v.iter().collect::<String>(), "x");
    let mut v: Vec<char> = "   ".chars().collect();
    trim_end_chars(&mut v);
    assert!(v.is_empty());
    let mut v: Vec<char> = Vec::new();
    trim_end_chars(&mut v);
    assert!(v.is_empty());
}

#[test]
fn trim_end_is_idempotent_on_example() {
    let mut v: Vec<char> = "ls -la  ".chars().collect();
    trim_end_chars(&mut v);
    let once = v.clone();
    trim_end_chars(&mut v);
    assert_eq!(v, once);
}

#[test]
fn whitespace_classification_matches_std() {
    for c in ['\t', '\n', '\u{b}', '\u{c}', '\r', ' ', '\u{85}', '\u{a0}', '\u{1680}', '\u{2000}', '\u{200a}', '\u{2028}', '\u{2029}', '\u{202f}', '\u{205f}', '\u{3000}', 'a', '\0', '\u{200b}', '\u{180e}'] {
        assert_eq!(char_is_whitespace(c), c.is_whitespace(), "{:?}", c);
    }
}

#[test]
fn nul_position_and_text() {
    assert_eq!(nul_position(b"abc\0def"), 3);
    assert_eq!(nul_position(b"abc"), 3);
    assert_eq!(nul_position(b"\0"), 0);
    assert_eq!(str_from_bytes(b"bash\0\0\0"), "bash");
    assert_eq!(str_from_bytes(b"full"), "full");
    assert_eq!(str_from_bytes(b"\xffx\0y"), "\u{fffd}x");
}

#[test]
fn nul_bytes_become_spaces() {
    let mut b = *b"-l\0-a\0\0";
    replace_nul_with_space(&mut b);
    assert_eq!(&b, b"-l -a  ");
}

#[test]
fn path_push_rules() {
    assert_eq!(push_path("/sys/fs/bpf", "EVENT_MAP"), "/sys/fs/bpf/EVENT_MAP");
    assert_eq!(push_path("/sys/fs/bpf/", "EVENT_MAP"), "/sys/fs/bpf/EVENT_MAP");
    assert_eq!(push_path("", "x"), "x");
    assert_eq!(push_path("/a", "/b"), "/b");
    let mut p = std::path::PathBuf::from("dir/sub");
    p.push("file.yaml");
    assert_eq!(push_path("dir/sub", "file.yaml"), p.to_str().unwrap());
}
