//! Registry of the loaded detectors, and the plan of which detectors to
//! load from which files.

use vstd::prelude::*;

use crate::config::Config;
use crate::detector::{detector_kind, has_config, kind_has_config, kind_of_name, DetectorKind};
use crate::path::{path_push, push_path};
use crate::text::str_eq;

verus! {

/// Names of the loaded detectors.
pub struct Registry {
    detectors: Vec<String>,
}

impl Registry {
    /// The names of the loaded detectors.
    pub closed spec fn names(&self) -> Set<Seq<char>> {
        self.detectors@.map_values(|s: String| s@).to_set()
    }

    /// An empty registry.
    pub fn new() -> (r: Self)
        ensures
            r.names() == Set::<Seq<char>>::empty(),
    {
        let r = Registry { detectors: Vec::new() };
        assert(r.names() =~= Set::<Seq<char>>::empty());
        r
    }

    /// Whether a detector of that name is loaded.
    pub fn contains(&self, name: &str) -> (r: bool)
        ensures
            r == self.names().contains(name@),
    {
        let mut i: usize = 0;
        while i < self.detectors.len()
            invariant
                i <= self.detectors@.len(),
                forall|j: int| 0 <= j < i ==> (#[trigger] self.detectors@[j])@ != name@,
            decreases self.detectors.len() - i,
        {
            if str_eq(self.detectors[i].as_str(), name) {
                assert(self.detectors@.map_values(|s: String| s@)[i as int] == name@);
                return true;
            }
            i += 1;
        }
        proof {
            let v = self.detectors@.map_values(|s: String| s@);
            if self.names().contains(name@) {
                let k = choose|k: int| 0 <= k < v.len() && v[k] == name@;
                assert(self.detectors@[k]@ == name@);
            }
        }
        false
    }

    /// Records a loaded detector; loading one of the same name again
    /// replaces it.
    pub fn insert(&mut self, name: &str)
        ensures
            final(self).names() == old(self).names().insert(name@),
    {
        if self.contains(name) {
            assert(old(self).names().insert(name@) =~= old(self).names());
            return;
        }
        self.detectors.push(String::from_str(name));
        proof {
            let old_v = old(self).detectors@.map_values(|s: String| s@);
            let new_v = self.detectors@.map_values(|s: String| s@);
            assert(new_v =~= old_v.push(name@));
            assert forall|x: Seq<char>| new_v.to_set().contains(x) <==> old_v.to_set().insert(
                name@,
            ).contains(x) by {
                if new_v.to_set().contains(x) {
                    let k = choose|k: int| 0 <= k < new_v.len() && new_v[k] == x;
                    if k < old_v.len() {
                        assert(old_v[k] == x);
                    }
                }
                if old_v.to_set().contains(x) {
                    let k = choose|k: int| 0 <= k < old_v.len() && old_v[k] == x;
                    assert(new_v[k] == x);
                }
                if x == name@ {
                    assert(new_v[old_v.len() as int] == x);
                }
            }
            assert(self.names() =~= old(self).names().insert(name@));
        }
    }
}

/// The path `PathBuf::pop` leaves of a path: its parent, or the path itself
/// where it has none.
pub uninterp spec fn path_pop(p: Seq<char>) -> Seq<char>;

/// Calls `PathBuf::pop`. Claimed: the result is `path_pop` of the path.
#[verifier::external_body]
fn pop_path(p: &str) -> (r: String)
    ensures
        r@ == path_pop(p@),
{
    let mut buf = std::path::PathBuf::from(p);
    buf.pop();
    buf.to_string_lossy().into_owned()
}

/// How one detector is to be loaded.
pub struct DetectorPlan {
    /// Name of the detector.
    pub name: String,
    /// The detector.
    pub kind: DetectorKind,
    /// Path of its eBPF object file.
    pub obj_path: String,
    /// Path of its configuration file, for the detectors that read one.
    pub config_path: Option<String>,
}

/// The contents of a plan.
pub struct PlanView {
    pub name: Seq<char>,
    pub kind: DetectorKind,
    pub obj_path: Seq<char>,
    pub config_path: Option<Seq<char>>,
}

impl View for DetectorPlan {
    type V = PlanView;

    open spec fn view(&self) -> PlanView {
        PlanView {
            name: self.name@,
            kind: self.kind,
            obj_path: self.obj_path@,
            config_path: match self.config_path {
                Some(c) => Some(c@),
                None => None,
            },
        }
    }
}

/// The plans for the detectors `names`, in order, with the object directory
/// `obj` and configuration directory `cfg` as they stand; and the first name
/// that is not a detector, where there is one (no plan is made from it on).
/// Each name is pushed onto both directories (`<name>.yaml` onto the
/// configuration one) and popped off again after its plan, so that later
/// detectors see the directories as `PathBuf::pop` leaves them.
pub open spec fn plans_of(names: Seq<Seq<char>>, obj: Seq<char>, cfg: Seq<char>) -> (
    Seq<PlanView>,
    Option<Seq<char>>,
)
    decreases names.len(),
{
    if names.len() == 0 {
        (Seq::empty(), None)
    } else {
        let name = names[0];
        let o = path_push(obj, name);
        let c = path_push(cfg, name + ".yaml"@);
        match kind_of_name(name) {
            None => (Seq::empty(), Some(name)),
            Some(k) => {
                let rest = plans_of(names.drop_first(), path_pop(o), path_pop(c));
                (
                    seq![
                        PlanView {
                            name,
                            kind: k,
                            obj_path: o,
                            config_path: if kind_has_config(k) {
                                Some(c)
                            } else {
                                None
                            },
                        },
                    ] + rest.0,
                    rest.1,
                )
            },
        }
    }
}

/// Whether `s` ends with `t`.
pub open spec fn ends_with(s: Seq<char>, t: Seq<char>) -> bool {
    t.len() <= s.len() && s.subrange(s.len() - t.len(), s.len() as int) == t
}

/// A path joined onto a directory ends with the joined path.
proof fn lemma_path_push_ends_with(base: Seq<char>, p: Seq<char>)
    ensures
        ends_with(path_push(base, p), p),
{
    let r = path_push(base, p);
    assert(r.subrange(r.len() - p.len(), r.len() as int) =~= p);
}

/// Every plan is for one of the five known detectors; its object file is
/// named after the detector, and exactly the GTFOBins, ProcMon and FileMon
/// plans carry a configuration file, named `<name>.yaml`.
pub proof fn lemma_plan_paths(names: Seq<Seq<char>>, obj: Seq<char>, cfg: Seq<char>)
    ensures
        forall|i: int|
            0 <= i < plans_of(names, obj, cfg).0.len() ==> {
                let p = #[trigger] plans_of(names, obj, cfg).0[i];
                &&& p.name == "gtfobins"@ || p.name == "histfile"@ || p.name == "io_uring"@
                    || p.name == "procmon"@ || p.name == "filemon"@
                &&& (p.config_path is Some <==> (p.name == "gtfobins"@ || p.name == "procmon"@
                    || p.name == "filemon"@))
                &&& p.config_path matches Some(c) ==> ends_with(c, p.name + ".yaml"@)
                &&& ends_with(p.obj_path, p.name)
            },
    decreases names.len(),
{
    reveal_strlit("gtfobins");
    reveal_strlit("histfile");
    reveal_strlit("io_uring");
    reveal_strlit("procmon");
    reveal_strlit("filemon");
    if names.len() > 0 {
        let name = names[0];
        let o = path_push(obj, name);
        let c = path_push(cfg, name + ".yaml"@);
        lemma_path_push_ends_with(obj, name);
        lemma_path_push_ends_with(cfg, name + ".yaml"@);
        if kind_of_name(name) is Some {
            let rest = plans_of(names.drop_first(), path_pop(o), path_pop(c));
            lemma_plan_paths(names.drop_first(), path_pop(o), path_pop(c));
            let all = plans_of(names, obj, cfg).0;
            assert forall|i: int| 0 < i < all.len() implies all[i] == rest.0[i - 1] by {}
        }
    }
}

/// Plans the loading of the detectors the configuration lists: object files
/// under `bpf_objs`, configuration files under `config_dir`. Returns the
/// plans up to the first unknown name, and that name.
pub fn plan_detectors(config: &Config) -> (r: (Vec<DetectorPlan>, Option<String>))
    requires
        config.detectors is Some ==> config.bpf_objs is Some,
    ensures
        match config.detectors {
            None => r.0@.len() == 0 && r.1 is None,
            Some(names) => {
                let expected = plans_of(
                    names@.map_values(|s: String| s@),
                    config.bpf_objs->0@,
                    config.config_dir@,
                );
                &&& r.0@.map_values(|p: DetectorPlan| p@) == expected.0
                &&& match r.1 {
                    Some(n) => expected.1 == Some(n@),
                    None => expected.1 is None,
                }
            },
        },
{
    let names = match &config.detectors {
        Some(n) => n,
        None => return (Vec::new(), None),
    };
    let base = match &config.bpf_objs {
        Some(b) => b,
        None => return (Vec::new(), None),
    };
    let ghost all = names@.map_values(|s: String| s@);
    let mut obj = String::from_str(base.as_str());
    let mut cfg = String::from_str(config.config_dir.as_str());
    let mut plans: Vec<DetectorPlan> = Vec::new();
    let mut i: usize = 0;
    assert(all.skip(0) =~= all);
    while i < names.len()
        invariant
            config.detectors == Some(*names),
            config.bpf_objs == Some(*base),
            all == names@.map_values(|s: String| s@),
            i <= names@.len(),
            plans_of(all, base@, config.config_dir@).0 == plans@.map_values(|p: DetectorPlan| p@)
                + plans_of(all.skip(i as int), obj@, cfg@).0,
            plans_of(all, base@, config.config_dir@).1 == plans_of(all.skip(i as int), obj@, cfg@).1,
        decreases names.len() - i,
    {
        let name = names[i].as_str();
        let ghost rest = all.skip(i as int);
        assert(rest[0] == name@);
        assert(rest.drop_first() =~= all.skip(i + 1));
        let o = push_path(obj.as_str(), name);
        let yaml_name = String::from_str(name).concat(".yaml");
        let c = push_path(cfg.as_str(), yaml_name.as_str());
        match detector_kind(name) {
            None => {
                assert(plans_of(rest, obj@, cfg@).0 =~= Seq::<PlanView>::empty());
                assert(plans@.map_values(|p: DetectorPlan| p@) + Seq::<PlanView>::empty()
                    =~= plans@.map_values(|p: DetectorPlan| p@));
                return (plans, Some(String::from_str(name)));
            },
            Some(kind) => {
                let config_path = if has_config(kind) {
                    Some(String::from_str(c.as_str()))
                } else {
                    None
                };
                let plan = DetectorPlan {
                    name: String::from_str(name),
                    kind,
                    obj_path: String::from_str(o.as_str()),
                    config_path,
                };
                let ghost before = plans@.map_values(|p: DetectorPlan| p@);
                plans.push(plan);
                obj = pop_path(o.as_str());
                cfg = pop_path(c.as_str());
                proof {
                    assert(plans@.map_values(|p: DetectorPlan| p@) =~= before.push(plan@));
                    let tail = plans_of(all.skip(i + 1), obj@, cfg@);
                    assert(before + (seq![plan@] + tail.0) =~= before.push(plan@) + tail.0);
                }
                i += 1;
            },
        }
    }
    assert(plans@.map_values(|p: DetectorPlan| p@) + Seq::<PlanView>::empty() =~= plans@.map_values(
        |p: DetectorPlan| p@,
    ));
    (plans, None)
}

} // verus!
