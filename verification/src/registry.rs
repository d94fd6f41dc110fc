//! The model registry: the mapping from model name to loaded model handle,
//! built once at startup from the host's per-model load reports and then
//! only read.
//!
//! Loading the model artifacts themselves is the host's job (it needs the
//! inference runtime); the registry records, for each catalog entry, whether
//! that load succeeded and under which handle, and answers name lookups
//! against the resulting map.

use vstd::prelude::*;
use crate::catalog::ModelInfo;

verus! {

/// Which execution device a model is placed on.
#[derive(Clone, Copy, PartialEq, Eq, Structural, Debug)]
pub enum Device {
    Accelerator,
    Cpu,
}

/// Where a model's artifacts come from.
#[derive(Clone, Copy, PartialEq, Eq, Structural, Debug)]
pub enum ModelType {
    Local,
    Remote,
}

/// Why a model failed to load.
#[derive(Clone, PartialEq, Eq, Debug)]
pub enum LoadError {
    /// The path does not contain a usable model artifact set.
    Invalid(String),
    /// Remote model loading is not implemented.
    Unsupported,
}

/// A loaded model, named by the slot under which the host stores the
/// inference-ready state. The handle is read-only: the registry hands out
/// copies freely, all naming the same loaded state.
#[derive(Clone, Copy, PartialEq, Eq, Structural, Debug)]
pub struct ModelHandle {
    pub slot: usize,
}

/// What the host reports for one catalog entry's load attempt: the model's
/// name and, when loading succeeded, its handle.
#[derive(Clone, Debug)]
pub struct LoadOutcome {
    pub name: String,
    pub handle: Option<ModelHandle>,
}

/// The device a load is owed: the accelerator exactly when it was both
/// requested and available, the default device otherwise.
pub open spec fn chosen_device(use_accelerator: bool, accelerator_available: bool) -> Device {
    if use_accelerator && accelerator_available {
        Device::Accelerator
    } else {
        Device::Cpu
    }
}

/// Picks the execution device: the accelerator exactly when it was both
/// requested and available, the default device otherwise. Pure capability
/// negotiation - it never fails.
pub fn select_device(use_accelerator: bool, accelerator_available: bool) -> (d: Device)
    ensures
        d == chosen_device(use_accelerator, accelerator_available),
{
    if use_accelerator && accelerator_available {
        Device::Accelerator
    } else {
        Device::Cpu
    }
}

/// The decisions a load attempt makes before the artifacts are touched:
/// remote loading is an unimplemented variant and is refused outright; a
/// local load goes ahead on the selected device.
pub fn load_precheck(model_type: ModelType, use_accelerator: bool, accelerator_available: bool) -> (r:
    Result<Device, LoadError>)
    ensures
        match r {
            Ok(d) => model_type is Local && d == chosen_device(
                use_accelerator,
                accelerator_available,
            ),
            Err(e) => model_type is Remote && e == LoadError::Unsupported,
        },
{
    match model_type {
        ModelType::Local => Ok(select_device(use_accelerator, accelerator_available)),
        ModelType::Remote => Err(LoadError::Unsupported),
    }
}

/// The map that a sequence of load reports builds up: each successful load
/// binds its name to its handle, a later success for the same name
/// overriding an earlier one; failed loads bind nothing and take nothing
/// away.
pub open spec fn built_map(s: Seq<LoadOutcome>) -> Map<Seq<char>, ModelHandle>
    decreases s.len(),
{
    if s.len() == 0 {
        Map::empty()
    } else {
        match s.last().handle {
            Some(h) => built_map(s.drop_last()).insert(s.last().name@, h),
            None => built_map(s.drop_last()),
        }
    }
}

/// What a lookup answers: the handle under the name, if the name is bound.
pub open spec fn spec_lookup(m: Map<Seq<char>, ModelHandle>, name: Seq<char>) -> Option<
    ModelHandle,
> {
    if m.contains_key(name) {
        Some(m[name])
    } else {
        None
    }
}

/// The registry: name -> handle, append-only while it is built, frozen and
/// read-only once requests are served.
pub struct ModelRegistry {
    entries: Vec<(String, ModelHandle)>,
}

/// The map that the registry's entry list denotes, later entries overriding
/// earlier ones of the same name.
pub open spec fn entries_map(s: Seq<(String, ModelHandle)>) -> Map<Seq<char>, ModelHandle>
    decreases s.len(),
{
    if s.len() == 0 {
        Map::empty()
    } else {
        entries_map(s.drop_last()).insert(s.last().0@, s.last().1)
    }
}

/// In a map denoted by an entry list, a name is bound exactly when some
/// entry carries it.
proof fn lemma_entries_map_contains(s: Seq<(String, ModelHandle)>, k: Seq<char>)
    ensures
        entries_map(s).contains_key(k) <==> exists|i: int| 0 <= i < s.len() && s[i].0@ == k,
    decreases s.len(),
{
    if s.len() > 0 {
        lemma_entries_map_contains(s.drop_last(), k);
        if entries_map(s).contains_key(k) {
            if s.last().0@ == k {
                assert(s[s.len() - 1].0@ == k);
            } else {
                let i = choose|i: int| 0 <= i < s.drop_last().len() && s.drop_last()[i].0@ == k;
                assert(s[i].0@ == k);
            }
        }
        if exists|i: int| 0 <= i < s.len() && s[i].0@ == k {
            let i = choose|i: int| 0 <= i < s.len() && s[i].0@ == k;
            if i < s.len() - 1 {
                assert(s.drop_last()[i].0@ == k);
            }
        }
    }
}

/// The entry that decides a lookup is the last one carrying the name: if
/// every entry after position `i` carries some other name, the map binds
/// the name to entry `i`'s handle.
proof fn lemma_entries_map_last(s: Seq<(String, ModelHandle)>, k: Seq<char>, i: int)
    requires
        0 <= i < s.len(),
        s[i].0@ == k,
        forall|j: int| i < j < s.len() ==> s[j].0@ != k,
    ensures
        entries_map(s).contains_key(k),
        entries_map(s)[k] == s[i].1,
    decreases s.len(),
{
    if i == s.len() - 1 {
    } else {
        lemma_entries_map_last(s.drop_last(), k, i);
    }
}

impl ModelRegistry {
    /// The registry as the map it stands for.
    pub closed spec fn view(&self) -> Map<Seq<char>, ModelHandle> {
        entries_map(self.entries@)
    }

    /// The empty registry.
    pub fn new() -> (reg: ModelRegistry)
        ensures
            reg@ == Map::<Seq<char>, ModelHandle>::empty(),
    {
        ModelRegistry { entries: Vec::new() }
    }

    /// Builds the registry from the host's load reports, one per catalog
    /// entry: successes are inserted under their names, failures are
    /// skipped, and no failure keeps any other model out.
    pub fn build(outcomes: &Vec<LoadOutcome>) -> (reg: ModelRegistry)
        ensures
            reg@ == built_map(outcomes@),
    {
        let mut entries: Vec<(String, ModelHandle)> = Vec::new();
        let mut i: usize = 0;
        while i < outcomes.len()
            invariant
                i <= outcomes@.len(),
                entries_map(entries@) == built_map(outcomes@.take(i as int)),
            decreases outcomes@.len() - i,
        {
            let ghost prefix = outcomes@.take(i as int);
            let ghost old_entries = entries@;
            match outcomes[i].handle {
                Some(h) => {
                    let name = outcomes[i].name.clone();
                    entries.push((name, h));
                    proof {
                        assert(entries@.drop_last() =~= old_entries);
                    }
                },
                None => {},
            }
            i = i + 1;
            proof {
                assert(outcomes@.take(i as int).drop_last() =~= prefix);
                assert(outcomes@.take(i as int).last() == outcomes@[i - 1]);
            }
        }
        proof {
            assert(outcomes@.take(outcomes@.len() as int) =~= outcomes@);
        }
        ModelRegistry { entries }
    }

    /// Answers a name lookup against the frozen map: the handle bound to
    /// the name, or nothing if the name is unknown. Read-only, so any
    /// number of concurrent callers may ask.
    pub fn lookup(&self, name: &String) -> (r: Option<ModelHandle>)
        ensures
            r == spec_lookup(self@, name@),
    {
        let mut i: usize = self.entries.len();
        while i > 0
            invariant
                i <= self.entries@.len(),
                forall|j: int| i <= j < self.entries@.len() ==> self.entries@[j].0@ != name@,
            decreases i,
        {
            i = i - 1;
            if self.entries[i].0 == *name {
                proof {
                    lemma_entries_map_last(self.entries@, name@, i as int);
                }
                return Some(self.entries[i].1);
            }
        }
        proof {
            lemma_entries_map_contains(self.entries@, name@);
        }
        None
    }
}

/// The catalog entries the server advertises: those whose model actually
/// loaded, in catalog order and under their original ordinals. A model
/// whose artifacts were invalid is simply left out.
#[verifier::loop_isolation(false)]
pub fn loaded_model_infos(infos: &Vec<ModelInfo>, reg: &ModelRegistry) -> (r: Vec<ModelInfo>)
    ensures
        r@ == infos@.filter(|mi: ModelInfo| reg@.contains_key(mi.label@)),
{
    let ghost pred = |mi: ModelInfo| reg@.contains_key(mi.label@);
    let mut r: Vec<ModelInfo> = Vec::new();
    let mut i: usize = 0;
    proof {
        reveal(Seq::filter);
        assert(infos@.take(0) =~= Seq::<ModelInfo>::empty());
    }
    while i < infos.len()
        invariant
            i <= infos@.len(),
            r@ == infos@.take(i as int).filter(pred),
        decreases infos@.len() - i,
    {
        let present = match reg.lookup(&infos[i].label) {
            Option::Some(_) => true,
            Option::None => false,
        };
        if present {
            r.push(ModelInfo { label: infos[i].label.clone(), value: infos[i].value });
        }
        proof {
            reveal(Seq::filter);
            assert(infos@.take(i + 1).drop_last() =~= infos@.take(i as int));
            assert(infos@.take(i + 1).last() == infos@[i as int]);
        }
        i = i + 1;
    }
    proof {
        assert(infos@.take(infos@.len() as int) =~= infos@);
    }
    r
}

/// Partial-failure isolation: the registry built from the host's load
/// reports binds a name exactly when some load attempt for that very name
/// succeeded. A model whose artifacts were invalid is simply absent, and
/// its failure keeps no other model out.
pub proof fn lemma_partial_failure_isolation(s: Seq<LoadOutcome>, k: Seq<char>)
    ensures
        built_map(s).contains_key(k) <==> exists|i: int|
            0 <= i < s.len() && s[i].name@ == k && s[i].handle is Some,
    decreases s.len(),
{
    if s.len() > 0 {
        lemma_partial_failure_isolation(s.drop_last(), k);
        if built_map(s).contains_key(k) {
            if s.last().handle is Some && s.last().name@ == k {
                assert(s[s.len() - 1].name@ == k && s[s.len() - 1].handle is Some);
            } else {
                if exists|i: int|
                    0 <= i < s.drop_last().len() && s.drop_last()[i].name@ == k
                        && s.drop_last()[i].handle is Some {
                    let i = choose|i: int|
                        0 <= i < s.drop_last().len() && s.drop_last()[i].name@ == k
                            && s.drop_last()[i].handle is Some;
                    assert(s[i].name@ == k && s[i].handle is Some);
                }
            }
        }
        if exists|i: int| 0 <= i < s.len() && s[i].name@ == k && s[i].handle is Some {
            let i = choose|i: int| 0 <= i < s.len() && s[i].name@ == k && s[i].handle is Some;
            if i < s.len() - 1 {
                assert(s.drop_last()[i].name@ == k && s.drop_last()[i].handle is Some);
            }
        }
    }
}

/// Lookup is idempotent: the lookup contract determines its answer from the
/// registry's frozen map and the name alone, so any two answers it admits
/// for the same registry and name are the same handle.
pub proof fn lemma_lookup_idempotent(
    reg: &ModelRegistry,
    name: Seq<char>,
    r1: Option<ModelHandle>,
    r2: Option<ModelHandle>,
)
    requires
        r1 == spec_lookup(reg@, name),
        r2 == spec_lookup(reg@, name),
    ensures
        r1 == r2,
{
}

} // verus!
