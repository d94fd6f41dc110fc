//! The model catalog: the stable list of (label, ordinal) entries that the
//! server advertises to clients, derived from the names of the model
//! directories found under the configured models root.
//!
//! The catalog is deterministic: the names are sorted before ordinals are
//! assigned, so the same set of directories yields the same catalog on any
//! platform, whatever order the directory enumeration hands them over in.

use vstd::prelude::*;
use vstd::multiset::Multiset;
use vstd::string::StrSliceExecFns;

verus! {

broadcast use vstd::seq_lib::group_to_multiset_ensures;

/// One catalog entry: a model's display label (the name of its directory)
/// and the 1-based ordinal handed to clients as a selector value.
#[derive(Clone, Debug)]
pub struct ModelInfo {
    pub label: String,
    pub value: i32,
}

/// The order the catalog is sorted in: lexicographic on the characters,
/// each position decided by code point.
pub open spec fn name_le(a: Seq<char>, b: Seq<char>) -> bool
    decreases a.len(),
{
    if a.len() == 0 {
        true
    } else if b.len() == 0 {
        false
    } else if (a[0] as u32) < (b[0] as u32) {
        true
    } else if (b[0] as u32) < (a[0] as u32) {
        false
    } else {
        name_le(a.skip(1), b.skip(1))
    }
}

/// Any two names are ordered one way or the other.
proof fn lemma_name_le_total(a: Seq<char>, b: Seq<char>)
    ensures
        name_le(a, b) || name_le(b, a),
    decreases a.len(),
{
    if a.len() == 0 {
    } else if b.len() == 0 {
    } else if (a[0] as u32) == (b[0] as u32) {
        lemma_name_le_total(a.skip(1), b.skip(1));
    }
}

/// The order chains: a name at or before a second, itself at or before a
/// third, is at or before the third.
proof fn lemma_name_le_trans(a: Seq<char>, b: Seq<char>, c: Seq<char>)
    requires
        name_le(a, b),
        name_le(b, c),
    ensures
        name_le(a, c),
    decreases a.len(),
{
    if a.len() == 0 {
    } else if b.len() == 0 {
        assert(false);
    } else if c.len() == 0 {
        assert(false);
    } else if (a[0] as u32) == (b[0] as u32) && (b[0] as u32) == (c[0] as u32) {
        lemma_name_le_trans(a.skip(1), b.skip(1), c.skip(1));
    }
}

/// Compares two names in the catalog's order, position by position.
#[verifier::loop_isolation(false)]
pub fn str_le(a: &str, b: &str) -> (r: bool)
    ensures
        r == name_le(a@, b@),
{
    let a_len = a.unicode_len();
    let b_len = b.unicode_len();
    let mut i: usize = 0;
    proof {
        assert(a@.skip(0) =~= a@);
        assert(b@.skip(0) =~= b@);
    }
    while i < a_len && i < b_len
        invariant
            i <= a_len,
            i <= b_len,
            name_le(a@, b@) == name_le(a@.skip(i as int), b@.skip(i as int)),
        decreases a_len - i,
    {
        let ca = a.get_char(i) as u32;
        let cb = b.get_char(i) as u32;
        proof {
            assert(a@.skip(i as int)[0] == a@[i as int]);
            assert(b@.skip(i as int)[0] == b@[i as int]);
        }
        if ca < cb {
            return true;
        }
        if cb < ca {
            return false;
        }
        proof {
            assert(a@.skip(i as int).skip(1) =~= a@.skip(i as int + 1));
            assert(b@.skip(i as int).skip(1) =~= b@.skip(i as int + 1));
        }
        i = i + 1;
    }
    i == a_len
}

/// The position a name belongs at in a sorted list: every name before it
/// is at or before it in the order, and it is at or before the name it
/// lands on.
#[verifier::loop_isolation(false)]
fn insertion_point(sorted: &Vec<String>, x: &String) -> (pos: usize)
    ensures
        pos <= sorted@.len(),
        forall|k: int| 0 <= k < pos ==> name_le(#[trigger] sorted@[k]@, x@),
        pos < sorted@.len() ==> name_le(x@, sorted@[pos as int]@),
{
    let mut pos: usize = 0;
    while pos < sorted.len()
        invariant
            pos <= sorted@.len(),
            forall|k: int| 0 <= k < pos ==> name_le(#[trigger] sorted@[k]@, x@),
        decreases sorted@.len() - pos,
    {
        if !str_le(sorted[pos].as_str(), x.as_str()) {
            proof {
                lemma_name_le_total(sorted@[pos as int]@, x@);
            }
            return pos;
        }
        pos = pos + 1;
    }
    pos
}

/// Sorts directory names into the catalog's order: the result holds
/// exactly the given names, each at or before any later one.
#[verifier::loop_isolation(false)]
pub fn sort_names(names: Vec<String>) -> (r: Vec<String>)
    ensures
        r@.len() == names@.len(),
        r@.to_multiset() == names@.to_multiset(),
        forall|i: int, j: int|
            0 <= i < j < r@.len() ==> name_le(#[trigger] r@[i]@, #[trigger] r@[j]@),
{
    let ghost all = names@;
    let mut rest = names;
    let mut r: Vec<String> = Vec::new();
    while rest.len() > 0
        invariant
            r@.len() + rest@.len() == all.len(),
            r@.to_multiset().add(rest@.to_multiset()) == all.to_multiset(),
            forall|i: int, j: int|
                0 <= i < j < r@.len() ==> name_le(#[trigger] r@[i]@, #[trigger] r@[j]@),
        decreases rest@.len(),
    {
        let ghost rest0 = rest@;
        let x = rest.remove(0);
        proof {
            assert(rest0[0] == x);
            assert(rest@.to_multiset() =~= rest0.to_multiset().remove(x));
        }
        let pos = insertion_point(&r, &x);
        let ghost r0 = r@;
        r.insert(pos, x);
        proof {
            r0.insert_ensures(pos as int, x);
            assert(r@.remove(pos as int) =~= r0);
            assert(r0.to_multiset() =~= r@.to_multiset().remove(x));
            assert(r@.to_multiset().contains(x)) by {
                assert(r@[pos as int] == x);
                assert(r@.contains(x));
            }
            assert(r@.to_multiset() =~= r0.to_multiset().insert(x)) by {
                broadcast use vstd::multiset::group_multiset_axioms;
            };
            assert(r@.to_multiset().add(rest@.to_multiset()) =~= all.to_multiset()) by {
                broadcast use vstd::multiset::group_multiset_axioms;
            };
            assert forall|i: int, j: int| 0 <= i < j < r@.len() implies name_le(
                #[trigger] r@[i]@,
                #[trigger] r@[j]@,
            ) by {
                if i == pos && j > pos {
                    if j - 1 > pos {
                        lemma_name_le_trans(x@, r0[pos as int]@, r0[j - 1]@);
                    }
                }
            }
        }
    }
    proof {
        assert(rest@.to_multiset() =~= Multiset::<String>::empty());
        assert(r@.to_multiset().add(Multiset::<String>::empty()) =~= r@.to_multiset()) by {
            broadcast use vstd::multiset::group_multiset_axioms;
        };
        assert(r@.len() == all.len()) by {
            assert(r@.to_multiset().len() == all.to_multiset().len());
        };
    }
    r
}

/// Turns the list of model directory names into the deterministic catalog:
/// the names are sorted into `name_le` order, and entry `i` of the result
/// carries the `i`-th sorted name as its label and the ordinal `i + 1` as
/// its value, so all ordinals are distinct.
pub fn get_model_infos(names: Vec<String>) -> (infos: Vec<ModelInfo>)
    requires
        names@.len() < i32::MAX,
    ensures
        infos@.len() == names@.len(),
        infos@.map_values(|mi: ModelInfo| mi.label).to_multiset() == names@.to_multiset(),
        forall|i: int, j: int|
            0 <= i < j < infos@.len() ==> name_le(
                (#[trigger] infos@[i]).label@,
                (#[trigger] infos@[j]).label@,
            ),
        forall|i: int| 0 <= i < infos@.len() ==> (#[trigger] infos@[i]).value == i + 1,
{
    let sorted = sort_names(names);
    let mut infos: Vec<ModelInfo> = Vec::new();
    let mut i: usize = 0;
    while i < sorted.len()
        invariant
            i <= sorted@.len(),
            sorted@.len() < i32::MAX,
            infos@.len() == i,
            forall|j: int| 0 <= j < i ==> (#[trigger] infos@[j]).label == sorted@[j],
            forall|j: int| 0 <= j < i ==> (#[trigger] infos@[j]).value == j + 1,
        decreases sorted@.len() - i,
    {
        let label = sorted[i].clone();
        infos.push(ModelInfo { label, value: (i + 1) as i32 });
        i = i + 1;
    }
    proof {
        assert(infos@.map_values(|mi: ModelInfo| mi.label) =~= sorted@);
    }
    infos
}

} // verus!
