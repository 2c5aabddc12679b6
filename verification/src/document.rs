//! A structured configuration document: the library's own model of the
//! native settings files (JSON or TOML) that the managed tools keep on
//! disk. A document is a table of string-keyed entries whose values are
//! scalars, arrays or nested tables; a `Raw` leaf carries the serialized
//! text of any value outside this model, so that merging preserves it
//! byte for byte.

use vstd::prelude::*;

use crate::assoc::assoc_get;
use crate::assoc::assoc_remove;
use crate::assoc::assoc_set;
use crate::assoc::lemma_assoc_get_absent;
use crate::assoc::lemma_assoc_get_at;
use crate::assoc::lemma_assoc_set_absent;
use crate::assoc::lemma_assoc_set_at;
use crate::text::str_eq;

verus! {

broadcast use vstd::std_specs::vec::axiom_vec_index_decreases;

/// One configuration value, as the library manipulates it.
#[derive(Debug, PartialEq)]
pub enum ConfigValue {
    Null,
    Bool(bool),
    Int(i64),
    Str(String),
    Arr(Vec<ConfigValue>),
    Table(Vec<(String, ConfigValue)>),
    /// The serialized text of a value the model does not interpret
    /// (for example a fractional number); carried through unchanged.
    Raw(String),
}

/// The mathematical model of a configuration value.
pub enum ConfigModel {
    Null,
    Bool(bool),
    Int(int),
    Str(Seq<char>),
    Arr(Seq<ConfigModel>),
    Table(Seq<(Seq<char>, ConfigModel)>),
    Raw(Seq<char>),
}

/// The model of a table: its entry list.
pub type TableModel = Seq<(Seq<char>, ConfigModel)>;

/// The model of one configuration value.
pub open spec fn model_of(v: ConfigValue) -> ConfigModel
    decreases v,
{
    match v {
        ConfigValue::Null => ConfigModel::Null,
        ConfigValue::Bool(b) => ConfigModel::Bool(b),
        ConfigValue::Int(i) => ConfigModel::Int(i as int),
        ConfigValue::Str(s) => ConfigModel::Str(s@),
        ConfigValue::Raw(s) => ConfigModel::Raw(s@),
        ConfigValue::Arr(xs) => ConfigModel::Arr(elems_view(xs@)),
        ConfigValue::Table(es) => ConfigModel::Table(entries_view(es@)),
    }
}

/// The model of an array's element list.
pub open spec fn elems_view(xs: Seq<ConfigValue>) -> Seq<ConfigModel>
    decreases xs,
{
    Seq::new(
        xs.len(),
        |i: int|
            if 0 <= i < xs.len() {
                model_of(xs[i])
            } else {
                ConfigModel::Null
            },
    )
}

/// The model of one table entry.
pub open spec fn entry_model(e: (String, ConfigValue)) -> (Seq<char>, ConfigModel)
    decreases e,
{
    (e.0@, model_of(e.1))
}

/// The model of a table's entry list.
pub open spec fn entries_view(es: Seq<(String, ConfigValue)>) -> Seq<(Seq<char>, ConfigModel)>
    decreases es,
{
    Seq::new(
        es.len(),
        |i: int|
            if 0 <= i < es.len() {
                entry_model(es[i])
            } else {
                (Seq::empty(), ConfigModel::Null)
            },
    )
}

impl View for ConfigValue {
    type V = ConfigModel;

    open spec fn view(&self) -> ConfigModel {
        model_of(*self)
    }
}

impl ConfigValue {
    /// A structurally identical copy of this value.
    pub fn duplicate(&self) -> (r: ConfigValue)
        ensures
            r@ == self@,
        decreases self,
    {
        match self {
            ConfigValue::Null => ConfigValue::Null,
            ConfigValue::Bool(b) => ConfigValue::Bool(*b),
            ConfigValue::Int(i) => ConfigValue::Int(*i),
            ConfigValue::Str(s) => ConfigValue::Str(s.clone()),
            ConfigValue::Raw(s) => ConfigValue::Raw(s.clone()),
            ConfigValue::Arr(xs) => {
                let mut out: Vec<ConfigValue> = Vec::new();
                let mut i: usize = 0;
                while i < xs.len()
                    invariant
                        0 <= i <= xs.len(),
                        out@.len() == i,
                        *self == ConfigValue::Arr(*xs),
                        forall|j: int| 0 <= j < i ==> (#[trigger] out@[j])@ == xs@[j]@,
                    decreases xs.len() - i,
                {
                    proof {
                        let ghost sv = *self;
                        assert(decreases_to!(sv => sv->Arr_0));
                        assert(decreases_to!(*xs => xs@[i as int]));
                    }
                    let c = xs[i].duplicate();
                    out.push(c);
                    i = i + 1;
                }
                proof {
                    assert(elems_view(out@) =~= elems_view(xs@));
                }
                ConfigValue::Arr(out)
            },
            ConfigValue::Table(es) => {
                let mut out: Vec<(String, ConfigValue)> = Vec::new();
                let mut i: usize = 0;
                while i < es.len()
                    invariant
                        0 <= i <= es.len(),
                        out@.len() == i,
                        *self == ConfigValue::Table(*es),
                        forall|j: int| 0 <= j < i ==> (#[trigger] out@[j]).0@ == es@[j].0@
                            && out@[j].1@ == es@[j].1@,
                    decreases es.len() - i,
                {
                    proof {
                        let ghost sv = *self;
                        assert(decreases_to!(sv => sv->Table_0));
                        assert(decreases_to!(*es => es@[i as int]));
                        assert(decreases_to!(es@[i as int] => es@[i as int].1));
                    }
                    let key = es[i].0.clone();
                    let c = es[i].1.duplicate();
                    out.push((key, c));
                    i = i + 1;
                }
                proof {
                    assert(entries_view(out@) =~= entries_view(es@));
                }
                ConfigValue::Table(out)
            },
        }
    }
}

/// A structurally identical copy of a table's entry list.
pub fn duplicate_entries(es: &Vec<(String, ConfigValue)>) -> (r: Vec<(String, ConfigValue)>)
    ensures
        entries_view(r@) == entries_view(es@),
{
    let mut out: Vec<(String, ConfigValue)> = Vec::new();
    let mut i: usize = 0;
    while i < es.len()
        invariant
            0 <= i <= es.len(),
            out@.len() == i,
            forall|j: int| 0 <= j < i ==> (#[trigger] out@[j]).0@ == es@[j].0@
                && out@[j].1@ == es@[j].1@,
        decreases es.len() - i,
    {
        let key = es[i].0.clone();
        let c = es[i].1.duplicate();
        out.push((key, c));
        i = i + 1;
    }
    proof {
        assert(entries_view(out@) =~= entries_view(es@));
    }
    out
}

/// The position of the first entry carrying `k`, if any.
fn table_find(es: &Vec<(String, ConfigValue)>, k: &str) -> (r: Option<usize>)
    ensures
        match r {
            Some(i) => i < es.len() && entries_view(es@)[i as int].0 == k@ && forall|j: int|
                0 <= j < i ==> (#[trigger] entries_view(es@)[j]).0 != k@,
            None => forall|j: int|
                0 <= j < es@.len() ==> (#[trigger] entries_view(es@)[j]).0 != k@,
        },
{
    let mut i: usize = 0;
    while i < es.len()
        invariant
            0 <= i <= es.len(),
            forall|j: int| 0 <= j < i ==> (#[trigger] entries_view(es@)[j]).0 != k@,
        decreases es.len() - i,
    {
        if str_eq(es[i].0.as_str(), k) {
            return Some(i);
        }
        i = i + 1;
    }
    None
}

/// The value under the first entry carrying `k`, if any.
pub fn table_get<'a>(es: &'a Vec<(String, ConfigValue)>, k: &str) -> (r: Option<&'a ConfigValue>)
    ensures
        match r {
            Some(v) => assoc_get(entries_view(es@), k@) == Some(v@),
            None => assoc_get(entries_view(es@), k@) is None,
        },
{
    match table_find(es, k) {
        Some(i) => {
            proof {
                lemma_assoc_get_at(entries_view(es@), k@, i as int);
            }
            Some(&es[i].1)
        },
        None => {
            proof {
                lemma_assoc_get_absent(entries_view(es@), k@);
            }
            None
        },
    }
}

/// Writes `(k, v)` over the first entry carrying `k`, or appends it.
pub fn table_set(es: &mut Vec<(String, ConfigValue)>, k: &str, v: ConfigValue)
    ensures
        entries_view(final(es)@) == assoc_set(entries_view(old(es)@), k@, v@),
{
    let key = k.to_owned();
    match table_find(es, k) {
        Some(i) => {
            proof {
                lemma_assoc_set_at(entries_view(es@), k@, v@, i as int);
            }
            es[i] = (key, v);
            proof {
                assert(entries_view(es@) =~= assoc_set(entries_view(old(es)@), k@, v@));
            }
        },
        None => {
            proof {
                lemma_assoc_set_absent(entries_view(es@), k@, v@);
            }
            es.push((key, v));
            proof {
                assert(entries_view(es@) =~= entries_view(old(es)@).push((k@, v@)));
            }
        },
    }
}

/// Drops every entry carrying `k`.
pub fn table_remove(es: &mut Vec<(String, ConfigValue)>, k: &str)
    ensures
        entries_view(final(es)@) == assoc_remove(entries_view(old(es)@), k@),
{
    loop
        invariant
            assoc_remove(entries_view(es@), k@) == assoc_remove(entries_view(old(es)@), k@),
        decreases es.len(),
    {
        match table_find(es, k) {
            Some(i) => {
                proof {
                    lemma_assoc_remove_at(entries_view(es@), k@, i as int);
                }
                let ghost prev = es@;
                es.remove(i);
                proof {
                    assert(entries_view(es@) =~= entries_view(prev).remove(i as int));
                }
            },
            None => {
                proof {
                    lemma_assoc_remove_absent(entries_view(es@), k@);
                }
                return;
            },
        }
    }
}

/// Removal is the identity on a list without the key.
proof fn lemma_assoc_remove_absent<K, V>(es: Seq<(K, V)>, k: K)
    requires
        forall|j: int| 0 <= j < es.len() ==> (#[trigger] es[j]).0 != k,
    ensures
        assoc_remove(es, k) == es,
    decreases es.len(),
{
    if es.len() == 0 {
    } else {
        lemma_assoc_remove_absent(es.drop_first(), k);
        assert(assoc_remove(es, k) =~= es);
    }
}

/// Removing a key is removing it from the list without its first
/// occurrence.
proof fn lemma_assoc_remove_at<K, V>(es: Seq<(K, V)>, k: K, i: int)
    requires
        0 <= i < es.len(),
        es[i].0 == k,
        forall|j: int| 0 <= j < i ==> (#[trigger] es[j]).0 != k,
    ensures
        assoc_remove(es, k) == assoc_remove(es.remove(i), k),
    decreases i,
{
    if i == 0 {
        assert(es.remove(0) =~= es.drop_first());
    } else {
        lemma_assoc_remove_at(es.drop_first(), k, i - 1);
        assert(es.remove(i).drop_first() =~= es.drop_first().remove(i - 1));
        assert(es.remove(i)[0] == es[0]);
        assert(assoc_remove(es.remove(i), k)
            == seq![es[0]] + assoc_remove(es.remove(i).drop_first(), k));
    }
}

} // verus!
