use vstd::prelude::*;

verus! {

/// A value of the free-form `[package.metadata]` table. Scalars that this
/// library never reads (integers, floats, booleans, dates) are `Other`.
#[derive(Debug, PartialEq, Eq)]
pub enum MetaValue {
    Str(String),
    Array(Vec<MetaValue>),
    Table(Vec<MetaEntry>),
    Other,
}

/// One key of a metadata table.
#[derive(Debug, PartialEq, Eq)]
pub struct MetaEntry {
    pub key: String,
    pub value: MetaValue,
}

/// A configuration error: the metadata or the manifest has the wrong shape.
/// `key` names the offending entry under `[package.metadata.ros]`.
#[derive(Debug, Clone, PartialEq, Eq)]
pub enum ConfigError {
    /// The entry is present but not an array.
    NotAnArray { key: String },
    /// The entry is present but not a string.
    NotAString { key: String },
    /// An element of the array entry is not a string.
    ElementNotString { key: String },
    /// A required entry is absent.
    Missing { key: String },
    /// Neither `safe_drive_path` nor `safe_drive_version` is given.
    MissingGenerator,
    /// The package's `build` key is `true` rather than a path or `false`.
    InvalidBuildSetting,
}

/// The value under `key` in the entries of a table, the first one that matches.
pub open spec fn lookup(es: Seq<MetaEntry>, key: Seq<char>) -> Option<MetaValue>
    decreases es.len(),
{
    if es.len() == 0 {
        None
    } else if es[0].key@ == key {
        Some(es[0].value)
    } else {
        lookup(es.drop_first(), key)
    }
}

/// The value under `key` when `v` is a table; nothing for any other value.
pub open spec fn spec_get(v: MetaValue, key: Seq<char>) -> Option<MetaValue> {
    match v {
        MetaValue::Table(es) => lookup(es@, key),
        _ => None,
    }
}

/// The strings among `vs`, in order; other values are skipped.
pub open spec fn strings_of(vs: Seq<MetaValue>) -> Seq<Seq<char>>
    decreases vs.len(),
{
    if vs.len() == 0 {
        seq![]
    } else {
        let rest = strings_of(vs.drop_last());
        match vs.last() {
            MetaValue::Str(s) => rest.push(s@),
            _ => rest,
        }
    }
}

/// The value behind an optional reference.
pub open spec fn opt_value(o: Option<&MetaValue>) -> Option<MetaValue> {
    match o {
        Some(m) => Some(*m),
        None => None,
    }
}

/// Whether every element of `vs` is a string.
pub open spec fn all_strings(vs: Seq<MetaValue>) -> bool {
    forall|i: int| 0 <= i < vs.len() ==> (#[trigger] vs[i]) is Str
}

/// Text equality between a `String` and a `str`.
pub fn text_eq(a: &String, b: &str) -> (r: bool)
    ensures
        r == (a@ == b@),
{
    let bs = String::from_str(b);
    *a == bs
}

impl MetaValue {
    /// The value under `key` when this is a table (the first match); `None` otherwise.
    pub fn get(&self, key: &str) -> (r: Option<&MetaValue>)
        ensures
            spec_get(*self, key@) == match r {
                Some(v) => Some(*v),
                None => None,
            },
    {
        match self {
            MetaValue::Table(es) => {
                let mut i: usize = 0;
                assert(es@.subrange(0, es.len() as int) =~= es@);
                assert(spec_get(*self, key@) == lookup(es@, key@));
                while i < es.len()
                    invariant
                        i <= es.len(),
                        spec_get(*self, key@) == lookup(es@, key@),
                        lookup(es@, key@) == lookup(es@.subrange(i as int, es.len() as int), key@),
                    decreases es.len() - i,
                {
                    assert(es@.subrange(i as int, es.len() as int).drop_first() =~= es@.subrange(
                        i + 1,
                        es.len() as int,
                    ));
                    assert(es@.subrange(i as int, es.len() as int)[0] == es@[i as int]);
                    if text_eq(&es[i].key, key) {
                        assert(lookup(es@.subrange(i as int, es.len() as int), key@) == Some(
                            es@[i as int].value,
                        ));
                        let v = &es[i].value;
                        assert(*v == es@[i as int].value);
                        return Some(v);
                    }
                    i = i + 1;
                }
                None
            },
            _ => None,
        }
    }

}

/// The strings among `vs`, in order, skipping the other values.
pub fn collect_strings(vs: &Vec<MetaValue>) -> (r: Vec<String>)
    ensures
        r@.map_values(|s: String| s@) == strings_of(vs@),
{
    let mut r: Vec<String> = Vec::new();
    let mut i: usize = 0;
    while i < vs.len()
        invariant
            i <= vs.len(),
            r@.map_values(|s: String| s@) == strings_of(vs@.subrange(0, i as int)),
        decreases vs.len() - i,
    {
        assert(vs@.subrange(0, i + 1 as int).drop_last() =~= vs@.subrange(0, i as int));
        let ghost prev = r@;
        match &vs[i] {
            MetaValue::Str(s) => {
                r.push(s.clone());
                assert(r@.map_values(|s: String| s@) =~= prev.map_values(|s: String| s@).push(
                    s@,
                ));
            },
            _ => {},
        }
        i = i + 1;
    }
    assert(vs@.subrange(0, i as int) =~= vs@);
    r
}

/// All elements as strings, or `None` when one of them is not a string.
pub fn all_as_strings(vs: &Vec<MetaValue>) -> (r: Option<Vec<String>>)
    ensures
        r is Some <==> all_strings(vs@),
        r matches Some(v) ==> v@.map_values(|s: String| s@) == strings_of(vs@),
{
    let mut i: usize = 0;
    while i < vs.len()
        invariant
            i <= vs.len(),
            all_strings(vs@.subrange(0, i as int)),
        decreases vs.len() - i,
    {
        match &vs[i] {
            MetaValue::Str(_) => {},
            _ => {
                return None;
            },
        }
        i = i + 1;
        assert(all_strings(vs@.subrange(0, i as int))) by {
            assert forall|j: int| 0 <= j < i implies (#[trigger] vs@.subrange(0, i as int)[j]) is Str by {
                if j < i - 1 {
                    assert(vs@.subrange(0, i as int)[j] == vs@.subrange(0, i - 1)[j]);
                }
            }
        }
    }
    assert(vs@.subrange(0, i as int) =~= vs@);
    Some(collect_strings(vs))
}

} // verus!
