//! Flattens the metadata of the root tagged union into a mapping from each
//! arm's name to the fields of the record it wraps.
use vstd::prelude::*;

use crate::model::{
    copy_fields, fields_view, lemma_variants_view_push, variants_view, Field, FieldView, ObjectData,
    ObjectView, VariantView,
};

verus! {

/// One entry of the mapping: a name and a field list.
pub type Entry = (Seq<char>, Seq<FieldView>);

pub open spec fn entries_view(es: Seq<(String, Vec<Field>)>) -> Seq<Entry> {
    es.map_values(|e: (String, Vec<Field>)| (e.0@, fields_view(e.1@)))
}

/// No two entries share a key.
pub open spec fn has_unique_keys(m: Seq<Entry>) -> bool {
    forall|i: int, j: int| 0 <= i < j < m.len() ==> m[i].0 != m[j].0
}

/// The mapping `m` with `k` bound to `v`: the entry of key `k` is replaced in
/// place, or a new entry is appended when there is none.
pub open spec fn insert_entry(m: Seq<Entry>, k: Seq<char>, v: Seq<FieldView>) -> Seq<Entry> {
    if exists|i: int| 0 <= i < m.len() && m[i].0 == k {
        m.update(choose|i: int| 0 <= i < m.len() && m[i].0 == k, (k, v))
    } else {
        m.push((k, v))
    }
}

/// The mapping built from the arms in order: an arm whose nested metadata is
/// a field list binds its name to those fields; any other arm is skipped.
pub open spec fn flatten_variants(vs: Seq<VariantView>) -> Seq<Entry>
    decreases vs.len(),
{
    if vs.len() == 0 {
        Seq::empty()
    } else {
        let rest = flatten_variants(vs.drop_last());
        let v = vs.last();
        match v.nested {
            Some(ObjectView::FieldList(fs)) => insert_entry(rest, v.name, fs),
            _ => rest,
        }
    }
}

/// The flattened mapping of a tagged union's metadata.
pub open spec fn flatten_shape(o: ObjectView) -> Seq<Entry>
    recommends
        o is EnumData,
{
    flatten_variants(o->EnumData_0.variants)
}

/// Flattens the metadata of a tagged union into (arm name, fields) entries,
/// in the order of the arms. Arms whose nested metadata is absent or is itself
/// a tagged union produce no entry.
pub fn flatten_root(data: &ObjectData) -> (r: Vec<(String, Vec<Field>)>)
    requires
        data is EnumData,
    ensures
        entries_view(r@) == flatten_shape(data@),
        has_unique_keys(entries_view(r@)),
{
    let e = match data {
        ObjectData::EnumData(e) => e,
        ObjectData::FieldList(_) => {
            proof {
                assert(false);
            }
            return Vec::new();
        },
    };
    let vs = &e.variants;
    let mut out: Vec<(String, Vec<Field>)> = Vec::new();
    let mut i: usize = 0;
    while i < vs.len()
        invariant
            i <= vs@.len(),
            entries_view(out@) == flatten_variants(variants_view(vs@.subrange(0, i as int))),
            has_unique_keys(entries_view(out@)),
        decreases vs.len() - i,
    {
        let ghost prefix = vs@.subrange(0, i as int);
        proof {
            assert(vs@.subrange(0, i + 1) =~= prefix.push(vs@[i as int]));
            lemma_variants_view_push(prefix, vs@[i as int]);
            assert(variants_view(prefix.push(vs@[i as int])).drop_last() =~= variants_view(prefix));
        }
        let v = &vs[i];
        match &v.nested {
            Some(ObjectData::FieldList(fs)) => {
                let fields = copy_fields(fs);
                insert_or_replace(&mut out, v.name.clone(), fields);
            },
            _ => {},
        }
        i = i + 1;
    }
    proof {
        assert(vs@.subrange(0, vs@.len() as int) =~= vs@);
    }
    out
}

/// Binds `k` to `v` in the entries `m`.
fn insert_or_replace(m: &mut Vec<(String, Vec<Field>)>, k: String, v: Vec<Field>)
    requires
        has_unique_keys(entries_view(old(m)@)),
    ensures
        entries_view(final(m)@) == insert_entry(entries_view(old(m)@), k@, fields_view(v@)),
        has_unique_keys(entries_view(final(m)@)),
{
    let ghost old_m = entries_view(m@);
    let mut j: usize = 0;
    while j < m.len()
        invariant
            j <= m@.len(),
            old_m == entries_view(m@),
            old_m == entries_view(old(m)@),
            has_unique_keys(old_m),
            forall|a: int| 0 <= a < j ==> old_m[a].0 != k@,
        decreases m.len() - j,
    {
        if m[j].0 == k {
            assert(old_m[j as int].0 == k@);
            assert(exists|a: int| 0 <= a < old_m.len() && old_m[a].0 == k@);
            let ghost c = choose|a: int| 0 <= a < old_m.len() && old_m[a].0 == k@;
            assert(c == j) by {
                if c < j {
                    assert(old_m[c].0 != old_m[j as int].0);
                } else if c > j {
                    assert(old_m[j as int].0 != old_m[c].0);
                }
            }
            let ghost kv = k@;
            let ghost vv = fields_view(v@);
            m.set(j, (k, v));
            assert(entries_view(m@) =~= old_m.update(j as int, (kv, vv)));
            assert(insert_entry(old_m, kv, vv) == old_m.update(j as int, (kv, vv)));
            return;
        }
        j = j + 1;
    }
    m.push((k, v));
    assert(entries_view(m@) =~= old_m.push((k@, fields_view(v@))));
}

} // verus!
