//! User-side detector configuration: which detectors exist, the kernel
//! version each needs, and how each reads its YAML configuration file.

use vstd::prelude::*;

use crate::gtfobins::{gtfobins_key, key_of, GTFOBINS_KEY_SIZE};
use crate::procmon::Config as ProcMonKernelConfig;
use crate::text::str_eq;
use crate::yaml::{load_yaml, scan_error_message, yaml_load, YamlNode};
use vstd::utf8::encode_utf8;

verus! {

/// A Linux kernel version.
#[derive(Clone, Copy, Debug, PartialEq, Eq)]
pub struct KernelVersion {
    pub major: u8,
    pub minor: u8,
    pub patch: u16,
}

/// Whether version `a` is at least version `b`, comparing major, minor and
/// patch numbers in that order.
pub open spec fn version_at_least(a: KernelVersion, b: KernelVersion) -> bool {
    ||| a.major > b.major
    ||| a.major == b.major && a.minor > b.minor
    ||| a.major == b.major && a.minor == b.minor && a.patch >= b.patch
}

impl KernelVersion {
    /// The version `major.minor.patch`.
    pub fn new(major: u8, minor: u8, patch: u16) -> (v: Self)
        ensures
            v.major == major,
            v.minor == minor,
            v.patch == patch,
    {
        KernelVersion { major, minor, patch }
    }

    /// Whether this version is at least `other`.
    pub fn at_least(&self, other: &KernelVersion) -> (r: bool)
        ensures
            r == version_at_least(*self, *other),
    {
        self.major > other.major || (self.major == other.major && self.minor > other.minor) || (
        self.major == other.major && self.minor == other.minor && self.patch >= other.patch)
    }
}

/// The detectors the agent can load.
#[derive(Clone, Copy, Debug, PartialEq, Eq)]
pub enum DetectorKind {
    GTFOBins,
    HistFile,
    IoUring,
    ProcMon,
    FileMon,
}

/// The detector a name stands for.
pub open spec fn kind_of_name(name: Seq<char>) -> Option<DetectorKind> {
    if name == "gtfobins"@ {
        Some(DetectorKind::GTFOBins)
    } else if name == "histfile"@ {
        Some(DetectorKind::HistFile)
    } else if name == "io_uring"@ {
        Some(DetectorKind::IoUring)
    } else if name == "procmon"@ {
        Some(DetectorKind::ProcMon)
    } else if name == "filemon"@ {
        Some(DetectorKind::FileMon)
    } else {
        None
    }
}

/// Whether a detector reads a configuration file.
pub open spec fn kind_has_config(kind: DetectorKind) -> bool {
    match kind {
        DetectorKind::GTFOBins => true,
        DetectorKind::HistFile => false,
        DetectorKind::IoUring => false,
        DetectorKind::ProcMon => true,
        DetectorKind::FileMon => true,
    }
}

/// The detector a name stands for; `None` for an unknown name.
pub fn detector_kind(name: &str) -> (k: Option<DetectorKind>)
    ensures
        k == kind_of_name(name@),
{
    if str_eq(name, "gtfobins") {
        Some(DetectorKind::GTFOBins)
    } else if str_eq(name, "histfile") {
        Some(DetectorKind::HistFile)
    } else if str_eq(name, "io_uring") {
        Some(DetectorKind::IoUring)
    } else if str_eq(name, "procmon") {
        Some(DetectorKind::ProcMon)
    } else if str_eq(name, "filemon") {
        Some(DetectorKind::FileMon)
    } else {
        None
    }
}

/// Whether a detector reads a configuration file.
pub fn has_config(kind: DetectorKind) -> (r: bool)
    ensures
        r == kind_has_config(kind),
{
    match kind {
        DetectorKind::GTFOBins => true,
        DetectorKind::HistFile => false,
        DetectorKind::IoUring => false,
        DetectorKind::ProcMon => true,
        DetectorKind::FileMon => true,
    }
}

/// Minimal kernel version the ProcMon detector supports.
pub fn procmon_min_kernel_version() -> (v: KernelVersion)
    ensures
        v == (KernelVersion { major: 5, minor: 10, patch: 0 }),
{
    KernelVersion::new(5, 10, 0)
}

/// Minimal kernel version the GTFOBins detector supports.
pub fn gtfobins_min_kernel_version() -> (v: KernelVersion)
    ensures
        v == (KernelVersion { major: 5, minor: 8, patch: 0 }),
{
    KernelVersion::new(5, 8, 0)
}

/// Why a detector configuration file could not be read.
#[derive(Debug)]
pub enum DetectorConfigError {
    /// The text is not valid YAML.
    Yaml(String),
    /// The text holds no YAML document.
    NoDocument,
    /// A GTFOBins entry lacks an integer `value` or a string `key`.
    InvalidEntry,
}

/// Whether a ProcMon configuration document sets `expose-events` to true.
pub open spec fn expose_setting(doc: YamlNode) -> bool {
    match doc.at("expose-events"@) {
        YamlNode::Boolean(b) => b,
        _ => false,
    }
}

/// Events are exposed exactly where `expose-events` is the boolean true: a
/// boolean false, any other value or a missing entry leaves them hidden.
pub proof fn lemma_expose_only_when_true(doc: YamlNode)
    ensures
        expose_setting(doc) <==> doc.at("expose-events"@) == YamlNode::Boolean(true),
        doc.at("expose-events"@) == YamlNode::Boolean(false) ==> !expose_setting(doc),
        doc.at("expose-events"@) == YamlNode::BadValue ==> !expose_setting(doc),
{
}

/// The ProcMon kernel configuration of the first document of its file:
/// events are exposed where `expose-events` is true.
pub fn procmon_config_from_yaml(docs: &Vec<YamlNode>) -> (c: ProcMonKernelConfig)
    requires
        docs@.len() > 0,
    ensures
        c.expose_events == expose_setting(docs@[0]),
        c.expose_events <==> docs@[0].at("expose-events"@) == YamlNode::Boolean(true),
{
    let expose = match docs[0].index("expose-events") {
        Some(n) => match n.as_bool() {
            Some(b) => b,
            None => false,
        },
        None => false,
    };
    ProcMonKernelConfig { expose_events: expose }
}

/// The ProcMon kernel configuration of the text of its file.
pub fn procmon_config_from_yaml_text(text: &str) -> (r: Result<ProcMonKernelConfig, DetectorConfigError>)
    ensures
        match yaml_load(text@) {
            None => r matches Err(DetectorConfigError::Yaml(_)),
            Some(docs) => if docs.len() == 0 {
                r matches Err(DetectorConfigError::NoDocument)
            } else {
                r matches Ok(c) && c.expose_events == expose_setting(docs[0]) && (c.expose_events
                    <==> docs[0].at("expose-events"@) == YamlNode::Boolean(true))
            },
        },
{
    let docs = match load_yaml(text) {
        Ok(docs) => docs,
        Err(e) => return Err(DetectorConfigError::Yaml(scan_error_message(&e))),
    };
    if docs.len() == 0 {
        return Err(DetectorConfigError::NoDocument);
    }
    Ok(procmon_config_from_yaml(&docs))
}

/// Prefix length, in bits, of a GTFOBins key in the longest-prefix-match map:
/// the whole key.
pub fn gtfobins_prefix_len() -> (n: u32)
    ensures
        n == GTFOBINS_KEY_SIZE * 8,
{
    (GTFOBINS_KEY_SIZE * 8) as u32
}

/// The entries under `maps.gtfobins` of a GTFOBins configuration document,
/// where it is a sequence.
pub open spec fn gtfobins_list(doc: YamlNode) -> Option<Seq<YamlNode>> {
    match doc.at("maps"@).at("gtfobins"@) {
        YamlNode::Array(a) => Some(a@),
        _ => None,
    }
}

/// Whether a GTFOBins entry has an integer `value` and a string `key`.
pub open spec fn entry_valid(e: YamlNode) -> bool {
    &&& e.at("value"@) is Integer
    &&& e.at("key"@) is Str
}

/// Whether every GTFOBins entry is valid.
pub open spec fn entries_valid(doc: YamlNode) -> bool {
    match gtfobins_list(doc) {
        Some(a) => forall|i: int| 0 <= i < a.len() ==> entry_valid(#[trigger] a[i]),
        None => true,
    }
}

/// The map key of a GTFOBins entry.
pub open spec fn entry_key(e: YamlNode) -> Seq<u8> {
    match e.at("key"@) {
        YamlNode::Str(s) => key_of(encode_utf8(s@)),
        _ => Seq::empty(),
    }
}

/// The map value of a GTFOBins entry, its integer converted as `as u32` does.
pub open spec fn entry_value(e: YamlNode) -> u32 {
    match e.at("value"@) {
        YamlNode::Integer(v) => v as u32,
        _ => 0,
    }
}

/// Entries of the GTFOBins map.
pub struct GTFOBinsConfig {
    /// Keys and values, in the order of the configuration file.
    pub gtfobins_entries: Vec<([u8; GTFOBINS_KEY_SIZE], u32)>,
}

/// Whether the entries are those of a document.
pub open spec fn entries_of(entries: Seq<([u8; GTFOBINS_KEY_SIZE], u32)>, doc: YamlNode) -> bool {
    match gtfobins_list(doc) {
        Some(a) => {
            &&& entries.len() == a.len()
            &&& forall|i: int|
                0 <= i < a.len() ==> (#[trigger] entries[i]).0@ == entry_key(a[i]) && entries[i].1
                    == entry_value(a[i])
        },
        None => entries.len() == 0,
    }
}

impl GTFOBinsConfig {
    /// The entries of a GTFOBins configuration document: one for each item
    /// of `maps.gtfobins`, its key built from the item's `key` command line,
    /// its value the item's `value`.
    pub fn from_yaml(doc: &YamlNode) -> (c: Self)
        requires
            entries_valid(*doc),
        ensures
            entries_of(c.gtfobins_entries@, *doc),
    {
        let mut entries: Vec<([u8; GTFOBINS_KEY_SIZE], u32)> = Vec::new();
        let list = match doc.index("maps") {
            Some(m) => match m.index("gtfobins") {
                Some(g) => g.as_vec(),
                None => None,
            },
            None => None,
        };
        match list {
            Some(items) => {
                assert(gtfobins_list(*doc) == Some(items@));
                let mut i: usize = 0;
                while i < items.len()
                    invariant
                        gtfobins_list(*doc) == Some(items@),
                        entries_valid(*doc),
                        i <= items@.len(),
                        entries@.len() == i,
                        forall|j: int|
                            0 <= j < i ==> (#[trigger] entries@[j]).0@ == entry_key(items@[j])
                                && entries@[j].1 == entry_value(items@[j]),
                    decreases items.len() - i,
                {
                    let item = &items[i];
                    assert(gtfobins_list(*doc)->0 == items@);
                    assert(entry_valid(gtfobins_list(*doc)->0[i as int]));
                    let value: u32 = match item.index("value") {
                        Some(v) => match v.as_i64() {
                            Some(n) => n as u32,
                            None => 0,
                        },
                        None => 0,
                    };
                    let key = match item.index("key") {
                        Some(k) => match k.as_str() {
                            Some(s) => gtfobins_key(s.as_str()),
                            None => [0u8; GTFOBINS_KEY_SIZE],
                        },
                        None => [0u8; GTFOBINS_KEY_SIZE],
                    };
                    entries.push((key, value));
                    i += 1;
                }
            },
            None => {},
        }
        GTFOBinsConfig { gtfobins_entries: entries }
    }

    /// The entries of the text of a GTFOBins configuration file; fails where
    /// the text is not valid YAML, holds no document, or has an invalid entry.
    pub fn from_yaml_text(text: &str) -> (r: Result<Self, DetectorConfigError>)
        ensures
            match yaml_load(text@) {
                None => r matches Err(DetectorConfigError::Yaml(_)),
                Some(docs) => if docs.len() == 0 {
                    r matches Err(DetectorConfigError::NoDocument)
                } else if !entries_valid(docs[0]) {
                    r matches Err(DetectorConfigError::InvalidEntry)
                } else {
                    r matches Ok(c) && entries_of(c.gtfobins_entries@, docs[0])
                },
            },
    {
        let docs = match load_yaml(text) {
            Ok(docs) => docs,
            Err(e) => return Err(DetectorConfigError::Yaml(scan_error_message(&e))),
        };
        if docs.len() == 0 {
            return Err(DetectorConfigError::NoDocument);
        }
        if !check_entries(&docs[0]) {
            return Err(DetectorConfigError::InvalidEntry);
        }
        Ok(GTFOBinsConfig::from_yaml(&docs[0]))
    }
}

/// Whether every GTFOBins entry of a document is valid.
fn check_entries(doc: &YamlNode) -> (r: bool)
    ensures
        r == entries_valid(*doc),
{
    let list = match doc.index("maps") {
        Some(m) => match m.index("gtfobins") {
            Some(g) => g.as_vec(),
            None => None,
        },
        None => None,
    };
    match list {
        Some(items) => {
            let mut i: usize = 0;
            while i < items.len()
                invariant
                    gtfobins_list(*doc) == Some(items@),
                    i <= items@.len(),
                    forall|j: int| 0 <= j < i ==> entry_valid(#[trigger] items@[j]),
                decreases items.len() - i,
            {
                let item = &items[i];
                let ok_value = match item.index("value") {
                    Some(v) => v.as_i64().is_some(),
                    None => false,
                };
                let ok_key = match item.index("key") {
                    Some(k) => k.as_str().is_some(),
                    None => false,
                };
                if !(ok_value && ok_key) {
                    assert(!entry_valid(items@[i as int]));
                    assert(gtfobins_list(*doc)->0 == items@);
                    return false;
                }
                i += 1;
            }
            true
        },
        None => true,
    }
}

} // verus!
