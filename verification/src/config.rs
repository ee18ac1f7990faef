//! Global configuration of the agent: command line options and the global
//! YAML configuration file.

use vstd::prelude::*;

use crate::path::{path_push, push_path};
use crate::yaml::{load_yaml, scan_error_message, yaml_load, YamlNode};

verus! {

/// Ring buffer map name used to send events.
pub const EVENT_MAP_NAME: &'static str = "EVENT_MAP";

/// Name of the global configuration file inside the configuration directory.
pub const GLOBAL_CONFIG_NAME: &'static str = "config.yaml";

/// Where events are transmitted. Exactly one of the options is meant to be set.
#[derive(Debug)]
pub struct TransmitterOpts {
    /// Send events to stdout
    pub stdout: bool,
    /// File path to save events
    pub event_log: Option<String>,
    /// Unix socket path to send events
    pub event_socket: Option<String>,
}

/// Options of the command line interface and global agent parameters.
#[derive(Debug)]
pub struct Config {
    /// Directory with bpf detector object files
    pub bpf_objs: Option<String>,
    /// Path to pin bpf maps
    pub maps_pin_path: Option<String>,
    /// Event map size (ring buffer size in bytes)
    pub event_map_size: Option<u32>,
    /// Raw event channel size (number of event messages)
    pub event_channel_size: Option<usize>,
    /// Detectors to load
    pub detectors: Option<Vec<String>>,
    /// YAML config dir with global config and detector configs
    pub config_dir: String,
    /// Transmitter options
    pub transmit_opts: TransmitterOpts,
}

impl Default for TransmitterOpts {
    fn default() -> (r: Self)
        ensures
            !r.stdout,
            r.event_log is None,
            r.event_socket is None,
    {
        TransmitterOpts { stdout: false, event_log: None, event_socket: None }
    }
}

impl Default for Config {
    fn default() -> (r: Self)
        ensures
            r.bpf_objs is None,
            r.maps_pin_path is None,
            r.event_map_size is None,
            r.event_channel_size is None,
            r.detectors is None,
            r.config_dir@ == Seq::<char>::empty(),
            !r.transmit_opts.stdout,
            r.transmit_opts.event_log is None,
            r.transmit_opts.event_socket is None,
    {
        Config {
            bpf_objs: None,
            maps_pin_path: None,
            event_map_size: None,
            event_channel_size: None,
            detectors: None,
            config_dir: String::new(),
            transmit_opts: TransmitterOpts::default(),
        }
    }
}

impl Config {
    /// Path of the pinned event map: the map name joined onto the maps pin path.
    pub fn event_pin_path(&self) -> (r: String)
        requires
            self.maps_pin_path is Some,
        ensures
            r@ == path_push(self.maps_pin_path->0@, EVENT_MAP_NAME@),
    {
        match &self.maps_pin_path {
            Some(p) => push_path(p.as_str(), EVENT_MAP_NAME),
            None => String::new(),
        }
    }

    /// Path of the global configuration file inside the configuration directory.
    pub fn global_config_path(&self) -> (r: String)
        ensures
            r@ == path_push(self.config_dir@, GLOBAL_CONFIG_NAME@),
    {
        push_path(self.config_dir.as_str(), GLOBAL_CONFIG_NAME)
    }
}

/// The characters of an optional string.
pub open spec fn opt_chars(o: Option<String>) -> Option<Seq<char>> {
    match o {
        Some(s) => Some(s@),
        None => None,
    }
}

/// The characters of each string of an optional list.
pub open spec fn opt_strings(o: Option<Vec<String>>) -> Option<Seq<Seq<char>>> {
    match o {
        Some(v) => Some(v@.map_values(|s: String| s@)),
        None => None,
    }
}

/// The string under `key` in a YAML document, where it is a string.
pub open spec fn yaml_string_setting(doc: YamlNode, key: Seq<char>) -> Option<Seq<char>> {
    match doc.at(key) {
        YamlNode::Str(s) => Some(s@),
        _ => None,
    }
}

/// The integer under `key` in a YAML document, where it is an integer.
pub open spec fn yaml_int_setting(doc: YamlNode, key: Seq<char>) -> Option<i64> {
    match doc.at(key) {
        YamlNode::Integer(i) => Some(i),
        _ => None,
    }
}

/// Whether every item of a YAML sequence is a string.
pub open spec fn all_strings(items: Seq<YamlNode>) -> bool {
    forall|i: int| 0 <= i < items.len() ==> #[trigger] items[i] is Str
}

/// The strings of a YAML sequence of strings.
pub open spec fn node_strings(items: Seq<YamlNode>) -> Seq<Seq<char>> {
    items.map_values(|n: YamlNode|
        match n {
            YamlNode::Str(s) => s@,
            _ => Seq::<char>::empty(),
        })
}

/// The detector list of a YAML document, where `detectors` is a sequence.
pub open spec fn yaml_detectors(doc: YamlNode) -> Option<Seq<Seq<char>>> {
    match doc.at("detectors"@) {
        YamlNode::Array(a) => Some(node_strings(a@)),
        _ => None,
    }
}

/// Whether the `detectors` entry of a YAML document, where it is a
/// sequence, holds only strings.
pub open spec fn yaml_detectors_valid(doc: YamlNode) -> bool {
    match doc.at("detectors"@) {
        YamlNode::Array(a) => all_strings(a@),
        _ => true,
    }
}

/// A setting given by the command line wins over one given by the YAML
/// document, which wins over the previous value.
pub open spec fn overridden<T>(prev: Option<T>, yaml: Option<T>, arg: Option<T>) -> Option<T> {
    if arg is Some {
        arg
    } else if yaml is Some {
        yaml
    } else {
        prev
    }
}

/// `Some(f(x))` for `Some(x)`.
pub open spec fn opt_map_u32(o: Option<i64>) -> Option<u32> {
    match o {
        Some(v) => Some(v as u32),
        None => None,
    }
}

/// `Some(x as usize)` for `Some(x)`.
pub open spec fn opt_map_usize(o: Option<i64>) -> Option<usize> {
    match o {
        Some(v) => Some(v as usize),
        None => None,
    }
}

/// Why the global configuration could not be read.
#[derive(Debug)]
pub enum ConfigError {
    /// The text is not valid YAML.
    Yaml(String),
    /// The text holds no YAML document.
    NoDocument,
    /// An entry of the detector list is not a string.
    DetectorNotString,
}

/// The string under `key`, copied.
fn string_setting(doc: &YamlNode, key: &str) -> (r: Option<String>)
    ensures
        opt_chars(r) == yaml_string_setting(*doc, key@),
{
    match doc.index(key) {
        Some(n) => match n.as_str() {
            Some(s) => Some(s.clone()),
            None => None,
        },
        None => None,
    }
}

/// The integer under `key`.
fn int_setting(doc: &YamlNode, key: &str) -> (r: Option<i64>)
    ensures
        r == yaml_int_setting(*doc, key@),
{
    match doc.index(key) {
        Some(n) => n.as_i64(),
        None => None,
    }
}

/// Copies the strings of a YAML sequence of strings.
fn strings_of(items: &Vec<YamlNode>) -> (r: Vec<String>)
    requires
        all_strings(items@),
    ensures
        r@.map_values(|s: String| s@) == node_strings(items@),
{
    let mut out: Vec<String> = Vec::new();
    let mut i: usize = 0;
    while i < items.len()
        invariant
            i <= items@.len(),
            all_strings(items@),
            out@.len() == i,
            forall|j: int| 0 <= j < i ==> (#[trigger] out@[j])@ == node_strings(items@)[j],
        decreases items.len() - i,
    {
        assert(items@[i as int] is Str);
        match &items[i] {
            YamlNode::Str(s) => out.push(s.clone()),
            _ => {},
        }
        i += 1;
    }
    assert(out@.map_values(|s: String| s@) =~= node_strings(items@));
    out
}

/// Whether every item of a YAML sequence is a string.
fn check_all_strings(items: &Vec<YamlNode>) -> (r: bool)
    ensures
        r == all_strings(items@),
{
    let mut i: usize = 0;
    while i < items.len()
        invariant
            i <= items@.len(),
            forall|j: int| 0 <= j < i ==> #[trigger] items@[j] is Str,
        decreases items.len() - i,
    {
        match &items[i] {
            YamlNode::Str(_) => {},
            _ => return false,
        }
        i += 1;
    }
    true
}

impl Config {
    /// Takes the settings that the global YAML document gives: `bpf_objs`
    /// and `maps_pin_path` where they are strings, `event_map_size` and
    /// `event_channel_size` where they are integers (converted as `as`
    /// does), and `detectors` where it is a sequence (of strings).
    pub fn apply_yaml(&mut self, doc: &YamlNode)
        requires
            yaml_detectors_valid(*doc),
        ensures
            opt_chars(final(self).bpf_objs) == overridden(
                opt_chars(old(self).bpf_objs),
                yaml_string_setting(*doc, "bpf_objs"@),
                None,
            ),
            opt_chars(final(self).maps_pin_path) == overridden(
                opt_chars(old(self).maps_pin_path),
                yaml_string_setting(*doc, "maps_pin_path"@),
                None,
            ),
            final(self).event_map_size == overridden(
                old(self).event_map_size,
                opt_map_u32(yaml_int_setting(*doc, "event_map_size"@)),
                None,
            ),
            final(self).event_channel_size == overridden(
                old(self).event_channel_size,
                opt_map_usize(yaml_int_setting(*doc, "event_channel_size"@)),
                None,
            ),
            opt_strings(final(self).detectors) == overridden(
                opt_strings(old(self).detectors),
                yaml_detectors(*doc),
                None,
            ),
            final(self).config_dir == old(self).config_dir,
            final(self).transmit_opts == old(self).transmit_opts,
    {
        let v = string_setting(doc, "bpf_objs");
        if v.is_some() {
            self.bpf_objs = v;
        }
        let v = string_setting(doc, "maps_pin_path");
        if v.is_some() {
            self.maps_pin_path = v;
        }
        if let Some(v) = int_setting(doc, "event_map_size") {
            self.event_map_size = Some(v as u32);
        }
        if let Some(v) = int_setting(doc, "event_channel_size") {
            self.event_channel_size = Some(v as usize);
        }
        if let Some(n) = doc.index("detectors") {
            if let Some(items) = n.as_vec() {
                let names = strings_of(items);
                self.detectors = Some(names);
            }
        }
    }

    /// Takes the settings given on the command line: every option that is
    /// set replaces the current value, and the transmitter options are taken
    /// from the command line only.
    pub fn apply_args(&mut self, args: Config)
        ensures
            opt_chars(final(self).bpf_objs) == overridden(
                opt_chars(old(self).bpf_objs),
                None,
                opt_chars(args.bpf_objs),
            ),
            opt_chars(final(self).maps_pin_path) == overridden(
                opt_chars(old(self).maps_pin_path),
                None,
                opt_chars(args.maps_pin_path),
            ),
            final(self).event_map_size == overridden(
                old(self).event_map_size,
                None,
                args.event_map_size,
            ),
            final(self).event_channel_size == overridden(
                old(self).event_channel_size,
                None,
                args.event_channel_size,
            ),
            opt_strings(final(self).detectors) == overridden(
                opt_strings(old(self).detectors),
                None,
                opt_strings(args.detectors),
            ),
            final(self).config_dir == old(self).config_dir,
            final(self).transmit_opts == args.transmit_opts,
    {
        if args.bpf_objs.is_some() {
            self.bpf_objs = args.bpf_objs;
        }
        if args.maps_pin_path.is_some() {
            self.maps_pin_path = args.maps_pin_path;
        }
        if args.event_map_size.is_some() {
            self.event_map_size = args.event_map_size;
        }
        if args.event_channel_size.is_some() {
            self.event_channel_size = args.event_channel_size;
        }
        if args.detectors.is_some() {
            self.detectors = args.detectors;
        }
        self.transmit_opts = args.transmit_opts;
    }

    /// Builds the configuration from the command line options `args` and the
    /// documents of the global YAML file: the configuration directory and the
    /// transmitter options come from the command line; every other option is
    /// the command line value where one is given, else the value of the first
    /// YAML document where it has one, else the current value.
    pub fn init(&mut self, args: Config, docs: &Vec<YamlNode>)
        requires
            docs@.len() > 0,
            yaml_detectors_valid(docs@[0]),
        ensures
            final(self).config_dir@ == args.config_dir@,
            final(self).transmit_opts == args.transmit_opts,
            opt_chars(final(self).bpf_objs) == overridden(
                opt_chars(old(self).bpf_objs),
                yaml_string_setting(docs@[0], "bpf_objs"@),
                opt_chars(args.bpf_objs),
            ),
            opt_chars(final(self).maps_pin_path) == overridden(
                opt_chars(old(self).maps_pin_path),
                yaml_string_setting(docs@[0], "maps_pin_path"@),
                opt_chars(args.maps_pin_path),
            ),
            final(self).event_map_size == overridden(
                old(self).event_map_size,
                opt_map_u32(yaml_int_setting(docs@[0], "event_map_size"@)),
                args.event_map_size,
            ),
            final(self).event_channel_size == overridden(
                old(self).event_channel_size,
                opt_map_usize(yaml_int_setting(docs@[0], "event_channel_size"@)),
                args.event_channel_size,
            ),
            opt_strings(final(self).detectors) == overridden(
                opt_strings(old(self).detectors),
                yaml_detectors(docs@[0]),
                opt_strings(args.detectors),
            ),
    {
        self.config_dir = String::from_str(args.config_dir.as_str());
        self.apply_yaml(&docs[0]);
        self.apply_args(args);
    }

    /// Builds the configuration from the command line options `args` and the
    /// text of the global YAML file, as `init` does with the documents of the
    /// text. Fails, leaving every option but the configuration directory
    /// unchanged, where the text is not valid YAML, holds no document, or
    /// lists a detector that is not a string.
    pub fn init_from_yaml(&mut self, args: Config, text: &str) -> (r: Result<(), ConfigError>)
        ensures
            final(self).config_dir@ == args.config_dir@,
            match yaml_load(text@) {
                None => r matches Err(ConfigError::Yaml(_)),
                Some(docs) => if docs.len() == 0 {
                    r matches Err(ConfigError::NoDocument)
                } else if !yaml_detectors_valid(docs[0]) {
                    r matches Err(ConfigError::DetectorNotString)
                } else {
                    &&& r is Ok
                    &&& final(self).transmit_opts == args.transmit_opts
                    &&& opt_chars(final(self).bpf_objs) == overridden(
                        opt_chars(old(self).bpf_objs),
                        yaml_string_setting(docs[0], "bpf_objs"@),
                        opt_chars(args.bpf_objs),
                    )
                    &&& opt_chars(final(self).maps_pin_path) == overridden(
                        opt_chars(old(self).maps_pin_path),
                        yaml_string_setting(docs[0], "maps_pin_path"@),
                        opt_chars(args.maps_pin_path),
                    )
                    &&& final(self).event_map_size == overridden(
                        old(self).event_map_size,
                        opt_map_u32(yaml_int_setting(docs[0], "event_map_size"@)),
                        args.event_map_size,
                    )
                    &&& final(self).event_channel_size == overridden(
                        old(self).event_channel_size,
                        opt_map_usize(yaml_int_setting(docs[0], "event_channel_size"@)),
                        args.event_channel_size,
                    )
                    &&& opt_strings(final(self).detectors) == overridden(
                        opt_strings(old(self).detectors),
                        yaml_detectors(docs[0]),
                        opt_strings(args.detectors),
                    )
                },
            },
            r is Err ==> {
                &&& opt_chars(final(self).bpf_objs) == opt_chars(old(self).bpf_objs)
                &&& opt_chars(final(self).maps_pin_path) == opt_chars(old(self).maps_pin_path)
                &&& final(self).event_map_size == old(self).event_map_size
                &&& final(self).event_channel_size == old(self).event_channel_size
                &&& opt_strings(final(self).detectors) == opt_strings(old(self).detectors)
                &&& final(self).transmit_opts == old(self).transmit_opts
            },
    {
        self.config_dir = String::from_str(args.config_dir.as_str());
        let docs = match load_yaml(text) {
            Ok(docs) => docs,
            Err(e) => return Err(ConfigError::Yaml(scan_error_message(&e))),
        };
        if docs.len() == 0 {
            return Err(ConfigError::NoDocument);
        }
        if let Some(n) = docs[0].index("detectors") {
            if let Some(items) = n.as_vec() {
                if !check_all_strings(items) {
                    return Err(ConfigError::DetectorNotString);
                }
            }
        }
        self.init(args, &docs);
        Ok(())
    }
}

} // verus!
