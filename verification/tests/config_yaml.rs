use bombini::config::{Config, ConfigError, TransmitterOpts};
use bombini::yaml::YamlNode;

fn args() -> Config {
    let mut c = Config::default();
    c.config_dir = "/etc/bombini".to_string();
    c.transmit_opts = TransmitterOpts { stdout: true, event_log: None, event_socket: None };
    c
}

const GLOBAL: &str = "bpf_objs: /usr/local/lib/bombini/bpf\nmaps_pin_path: /sys/fs/bpf/bombini\nevent_map_size: 65536\nevent_channel_size: 64\ndetectors:\n  - procmon\n  - gtfobins\n";

#[test]
fn yaml_values_fill_unset_options() {
    let mut c = Config::default();
    c.init_from_yaml(args(), GLOBAL).unwrap();
    assert_eq!(c.config_dir, "/etc/bombini");
    assert_eq!(c.bpf_objs.as_deref(), Some("/usr/local/lib/bombini/bpf"));
    assert_eq!(c.maps_pin_path.as_deref(), Some("/sys/fs/bpf/bombini"));
    assert_eq!(c.event_map_size, Some(65536));
    assert_eq!(c.event_channel_size, Some(64));
    assert_eq!(c.detectors, Some(vec!["procmon".to_string(), "gtfobins".to_string()]));
    assert!(c.transmit_opts.stdout);
}

#[test]
fn command_line_overrides_yaml() {
    let mut a = args();
    a.bpf_objs = Some("/opt/bpf".to_string());
    a.event_map_size = Some(4096);
    a.detectors = Some(vec!["filemon".to_string()]);
    a.transmit_opts = TransmitterOpts { stdout: false, event_log: Some("/var/log/ev".to_string()), event_socket: None };
    let mut c = Config::default();
    c.init_from_yaml(a, GLOBAL).unwrap();
    assert_eq!(c.bpf_objs.as_deref(), Some("/opt/bpf"));
    assert_eq!(c.maps_pin_path.as_deref(), Some("/sys/fs/bpf/bombini"));
    assert_eq!(c.event_map_size, Some(4096));
    assert_eq!(c.event_channel_size, Some(64));
    assert_eq!(c.detectors, Some(vec!["filemon".to_string()]));
    assert!(!c.transmit_opts.stdout);
    assert_eq!(c.transmit_opts.event_log.as_deref(), Some("/var/log/ev"));
}

#[test]
fn values_of_wrong_type_are_ignored() {
    let mut c = Config::default();
    c.bpf_objs = Some("kept".to_string());
    c.init_from_yaml(args(), "bpf_objs: 12\nevent_map_size: big\nevent_channel_size: -1\n").unwrap();
    assert_eq!(c.bpf_objs.as_deref(), Some("kept"));
    assert_eq!(c.event_map_size, None);
    assert_eq!(c.event_channel_size, Some(usize::MAX));
}

#[test]
fn integer_settings_convert_as_casts() {
    let mut c = Config::default();
    c.init_from_yaml(args(), "event_map_size: 4294967297\n").unwrap();
    assert_eq!(c.event_map_size, Some(1));
}

#[test]
fn invalid_yaml_is_an_error() {
    let mut c = Config::default();
    let r = c.init_from_yaml(args(), "key: [unclosed\n");
    assert!(matches!(r, Err(ConfigError::Yaml(_))));
    assert_eq!(c.config_dir, "/etc/bombini");
    assert_eq!(c.bpf_objs, None);
}

#[test]
fn empty_yaml_is_an_error() {
    let mut c = Config::default();
    assert!(matches!(c.init_from_yaml(args(), ""), Err(ConfigError::NoDocument)));
}

#[test]
fn non_string_detector_is_an_error() {
    let mut c = Config::default();
    let r = c.init_from_yaml(args(), "detectors:\n  - procmon\n  - 3\n");
    assert!(matches!(r, Err(ConfigError::DetectorNotString)));
    assert_eq!(c.detectors, None);
}

#[test]
fn event_pin_path_joins_map_name() {
    let mut c = Config::default();
    c.maps_pin_path = Some("/sys/fs/bpf/bombini".to_string());
    assert_eq!(c.event_pin_path(), "/sys/fs/bpf/bombini/EVENT_MAP");
    c.config_dir = "/etc/bombini/".to_string();
    assert_eq!(c.global_config_path(), "/etc/bombini/config.yaml");
}

#[test]
fn yaml_lookup_follows_loader() {
    let docs = yaml_rust2::YamlLoader::load_from_str("a: 1\nb: x\nc: [true]\n").unwrap();
    assert_eq!(docs.len(), 1);
    let node = YamlNode::Hash(vec![
        (YamlNode::Str("a".to_string()), YamlNode::Integer(1)),
        (YamlNode::Str("b".to_string()), YamlNode::Str("x".to_string())),
        (YamlNode::Integer(7), YamlNode::Boolean(false)),
    ]);
    assert_eq!(node.index("a").and_then(|n| n.as_i64()), Some(1));
    assert_eq!(node.index("b").and_then(|n| n.as_str()).map(|s| s.as_str()), Some("x"));
    assert!(node.index("7").is_none());
    assert!(node.index("missing").is_none());
    assert!(YamlNode::Integer(3).index("a").is_none());
    assert_eq!(YamlNode::Boolean(true).as_bool(), Some(true));
    assert!(YamlNode::Null.as_vec().is_none());
}

#[test]
fn init_from_documents() {
    let doc = YamlNode::Hash(vec![(
        YamlNode::Str("maps_pin_path".to_string()),
        YamlNode::Str("/pin".to_string()),
    )]);
    let mut c = Config::default();
    c.init(args(), &vec![doc]);
    assert_eq!(c.maps_pin_path.as_deref(), Some("/pin"));
    assert_eq!(c.event_pin_path(), "/pin/EVENT_MAP");
}
