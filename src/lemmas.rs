//! What the generated metadata and its flattening guarantee.
use vstd::prelude::*;

use crate::declaration::{has_unique_names, DeclKind, DeclView};
use crate::generator::{arm_shape, describe_shape, lookup, nested_shape, shallow_shape};
use crate::model::{FieldView, ObjectView};
use crate::schema::{flatten_shape, flatten_variants, insert_entry, Entry};

verus! {

/// Whether `ty` names a registered record.
pub open spec fn is_registered_record(reg: Seq<DeclView>, ty: Seq<char>) -> bool {
    lookup(reg, ty) matches Some(w) && w.kind == DeclKind::Record
}

/// The entry that an arm wrapping a registered record contributes.
pub open spec fn arm_entry(reg: Seq<DeclView>, m: FieldView) -> Entry {
    (m.name, lookup(reg, m.ty)->Some_0.members)
}

/// One entry per arm whose wrapped type is a registered record, in arm order.
pub open spec fn record_arm_entries(reg: Seq<DeclView>, ms: Seq<FieldView>) -> Seq<Entry>
    decreases ms.len(),
{
    if ms.len() == 0 {
        Seq::empty()
    } else {
        let rest = record_arm_entries(reg, ms.drop_last());
        if is_registered_record(reg, ms.last().ty) {
            rest.push(arm_entry(reg, ms.last()))
        } else {
            rest
        }
    }
}

pub open spec fn arms_of(reg: Seq<DeclView>, ms: Seq<FieldView>) -> Seq<crate::model::VariantView> {
    ms.map_values(|m: FieldView| arm_shape(m, nested_shape(reg, m.ty)))
}

/// After a declaration is registered under a name that was free, looking that
/// name up finds it, and every other name is found as before.
pub proof fn lemma_registered_is_found(reg: Seq<DeclView>, d: DeclView, other: Seq<char>)
    requires
        forall|i: int, j: int| 0 <= i < j < reg.len() ==> reg[i].name != reg[j].name,
        lookup(reg, d.name) is None,
    ensures
        lookup(reg.push(d), d.name) == Some(d),
        other != d.name ==> lookup(reg.push(d), other) == lookup(reg, other),
{
    let r = reg.push(d);
    assert(r[reg.len() as int].name == d.name);
    let c = choose|i: int| 0 <= i < r.len() && r[i].name == d.name;
    if c < reg.len() {
        assert(reg[c].name == d.name);
    }
    if other != d.name {
        if exists|i: int| 0 <= i < reg.len() && reg[i].name == other {
            let k = choose|i: int| 0 <= i < reg.len() && reg[i].name == other;
            assert(r[k].name == other);
            let k2 = choose|i: int| 0 <= i < r.len() && r[i].name == other;
            assert(k2 < reg.len());
            assert(k2 == k) by {
                if k2 < k {
                    assert(reg[k2].name != reg[k].name);
                } else if k2 > k {
                    assert(reg[k].name != reg[k2].name);
                }
            }
        } else {
            assert(!(exists|i: int| 0 <= i < r.len() && r[i].name == other)) by {
                if exists|i: int| 0 <= i < r.len() && r[i].name == other {
                    let k = choose|i: int| 0 <= i < r.len() && r[i].name == other;
                    assert(reg[k].name == other);
                }
            }
        }
    }
}

/// A record is described by its fields, in declared order.
pub proof fn lemma_record_described_by_fields(reg: Seq<DeclView>, d: DeclView)
    requires
        d.kind == DeclKind::Record,
    ensures
        describe_shape(reg, d) == ObjectView::FieldList(d.members),
{
}

/// A tagged union is described by one arm per member, in declared order, each
/// under the member's name (its rename, where it has one) and wrapped type.
pub proof fn lemma_union_described_by_arms(reg: Seq<DeclView>, d: DeclView)
    requires
        d.kind == DeclKind::Union,
    ensures
        describe_shape(reg, d) is EnumData,
        describe_shape(reg, d)->EnumData_0.name == d.name,
        describe_shape(reg, d)->EnumData_0.variants.len() == d.members.len(),
        forall|i: int|
            0 <= i < d.members.len() ==> {
                let v = #[trigger] describe_shape(reg, d)->EnumData_0.variants[i];
                v.name == d.members[i].name && v.ty == d.members[i].ty
            },
{
}

/// An arm's nested metadata is the wrapped record's own description when the
/// wrapped type is a registered record, and is absent when the wrapped type is
/// not registered.
pub proof fn lemma_nested_is_own_description(reg: Seq<DeclView>, d: DeclView, i: int)
    requires
        d.kind == DeclKind::Union,
        0 <= i < d.members.len(),
    ensures
        is_registered_record(reg, d.members[i].ty) ==> describe_shape(reg, d)->EnumData_0.variants[i].nested
            == Some(describe_shape(reg, lookup(reg, d.members[i].ty)->Some_0)),
        lookup(reg, d.members[i].ty) is None ==> describe_shape(reg, d)->EnumData_0.variants[i].nested
            is None,
{
}

/// Flattening the arms yields exactly the entries of the arms that wrap
/// registered records, in arm order.
pub proof fn lemma_flatten_arms(reg: Seq<DeclView>, ms: Seq<FieldView>)
    requires
        has_unique_names(ms),
    ensures
        flatten_variants(arms_of(reg, ms)) == record_arm_entries(reg, ms),
        forall|k: int|
            0 <= k < record_arm_entries(reg, ms).len() ==> exists|i: int|
                0 <= i < ms.len() && ms[i].name == (#[trigger] record_arm_entries(reg, ms)[k]).0,
    decreases ms.len(),
{
    if ms.len() > 0 {
        let init = ms.drop_last();
        let m = ms.last();
        assert(has_unique_names(init));
        lemma_flatten_arms(reg, init);
        assert(arms_of(reg, ms).drop_last() =~= arms_of(reg, init));
        let rest = record_arm_entries(reg, init);
        assert(arms_of(reg, ms).last() == arm_shape(m, nested_shape(reg, m.ty)));
        if is_registered_record(reg, m.ty) {
            let w = lookup(reg, m.ty)->Some_0;
            assert(shallow_shape(w) == ObjectView::FieldList(w.members));
            assert(!(exists|i: int| 0 <= i < rest.len() && rest[i].0 == m.name)) by {
                if exists|i: int| 0 <= i < rest.len() && rest[i].0 == m.name {
                    let i = choose|i: int| 0 <= i < rest.len() && rest[i].0 == m.name;
                    let j = choose|j: int| 0 <= j < init.len() && init[j].name == rest[i].0;
                    assert(ms[j].name != ms[ms.len() - 1].name);
                }
            }
            assert(insert_entry(rest, m.name, w.members) == rest.push(arm_entry(reg, m)));
            assert forall|k: int|
                0 <= k < record_arm_entries(reg, ms).len() implies exists|i: int|
                0 <= i < ms.len() && ms[i].name == (#[trigger] record_arm_entries(reg, ms)[k]).0 by {
                if k < rest.len() {
                    let j = choose|j: int| 0 <= j < init.len() && init[j].name == rest[k].0;
                    assert(ms[j].name == record_arm_entries(reg, ms)[k].0);
                } else {
                    assert(ms[ms.len() - 1].name == record_arm_entries(reg, ms)[k].0);
                }
            }
        } else {
            match lookup(reg, m.ty) {
                Some(w) => {
                    assert(shallow_shape(w) is EnumData);
                },
                None => {},
            }
            assert forall|k: int|
                0 <= k < record_arm_entries(reg, ms).len() implies exists|i: int|
                0 <= i < ms.len() && ms[i].name == (#[trigger] record_arm_entries(reg, ms)[k]).0 by {
                let j = choose|j: int| 0 <= j < init.len() && init[j].name == rest[k].0;
                assert(ms[j].name == record_arm_entries(reg, ms)[k].0);
            }
        }
    }
}

proof fn lemma_all_record_entries(reg: Seq<DeclView>, ms: Seq<FieldView>)
    requires
        forall|i: int| 0 <= i < ms.len() ==> is_registered_record(reg, #[trigger] ms[i].ty),
    ensures
        record_arm_entries(reg, ms).len() == ms.len(),
        forall|i: int|
            0 <= i < ms.len() ==> #[trigger] record_arm_entries(reg, ms)[i] == arm_entry(reg, ms[i]),
    decreases ms.len(),
{
    if ms.len() > 0 {
        lemma_all_record_entries(reg, ms.drop_last());
        assert(is_registered_record(reg, ms[ms.len() - 1].ty));
    }
}

proof fn lemma_one_skipped_entries(reg: Seq<DeclView>, ms: Seq<FieldView>, k: int)
    requires
        0 <= k < ms.len(),
        lookup(reg, ms[k].ty) is None,
        forall|i: int| 0 <= i < ms.len() && i != k ==> is_registered_record(reg, #[trigger] ms[i].ty),
    ensures
        record_arm_entries(reg, ms).len() == ms.len() - 1,
        forall|i: int| 0 <= i < k ==> #[trigger] record_arm_entries(reg, ms)[i] == arm_entry(reg, ms[i]),
        forall|i: int|
            k <= i < ms.len() - 1 ==> #[trigger] record_arm_entries(reg, ms)[i] == arm_entry(
                reg,
                ms[i + 1],
            ),
    decreases ms.len(),
{
    let init = ms.drop_last();
    if k == ms.len() - 1 {
        lemma_all_record_entries(reg, init);
    } else {
        lemma_one_skipped_entries(reg, init, k);
        assert(is_registered_record(reg, ms[ms.len() - 1].ty));
    }
}

/// When every arm of a union wraps a registered record, flattening its
/// description yields one entry per arm, in arm order, each binding the arm's
/// name to that record's own field list.
pub proof fn lemma_flatten_all_records(reg: Seq<DeclView>, d: DeclView)
    requires
        d.kind == DeclKind::Union,
        has_unique_names(d.members),
        forall|i: int| 0 <= i < d.members.len() ==> is_registered_record(reg, #[trigger] d.members[i].ty),
    ensures
        flatten_shape(describe_shape(reg, d)).len() == d.members.len(),
        forall|i: int|
            0 <= i < d.members.len() ==> {
                let e = #[trigger] flatten_shape(describe_shape(reg, d))[i];
                &&& e.0 == d.members[i].name
                &&& describe_shape(reg, lookup(reg, d.members[i].ty)->Some_0)
                    == ObjectView::FieldList(e.1)
            },
{
    lemma_flatten_arms(reg, d.members);
    assert(describe_shape(reg, d)->EnumData_0.variants == arms_of(reg, d.members));
    lemma_all_record_entries(reg, d.members);
}

/// When exactly one arm of a union wraps an unregistered type and every other
/// arm wraps a registered record, flattening its description omits that arm
/// and keeps the others, in arm order.
pub proof fn lemma_flatten_skips_unregistered(reg: Seq<DeclView>, d: DeclView, k: int)
    requires
        d.kind == DeclKind::Union,
        has_unique_names(d.members),
        0 <= k < d.members.len(),
        lookup(reg, d.members[k].ty) is None,
        forall|i: int|
            0 <= i < d.members.len() && i != k ==> is_registered_record(reg, #[trigger] d.members[i].ty),
    ensures
        flatten_shape(describe_shape(reg, d)).len() == d.members.len() - 1,
        forall|i: int|
            0 <= i < k ==> #[trigger] flatten_shape(describe_shape(reg, d))[i] == arm_entry(
                reg,
                d.members[i],
            ),
        forall|i: int|
            k < i < d.members.len() ==> flatten_shape(describe_shape(reg, d))[i - 1] == arm_entry(
                reg,
                #[trigger] d.members[i],
            ),
        forall|j: int|
            0 <= j < d.members.len() - 1 ==> (#[trigger] flatten_shape(describe_shape(reg, d))[j]).0
                != d.members[k].name,
{
    lemma_flatten_arms(reg, d.members);
    assert(describe_shape(reg, d)->EnumData_0.variants == arms_of(reg, d.members));
    lemma_one_skipped_entries(reg, d.members, k);
    let f = flatten_shape(describe_shape(reg, d));
    assert forall|i: int| k < i < d.members.len() implies f[i - 1] == arm_entry(
        reg,
        #[trigger] d.members[i],
    ) by {
        assert(f[(i - 1)] == arm_entry(reg, d.members[(i - 1) + 1]));
    }
    assert forall|j: int| 0 <= j < d.members.len() - 1 implies (#[trigger] f[j]).0 != d.members[k].name by {
        if j < k {
            assert(f[j].0 == d.members[j].name);
        } else {
            assert(f[j].0 == d.members[j + 1].name);
        }
    }
}

/// Describing and flattening depend on the registered declarations alone: the
/// same declarations give the same results, every time.
pub proof fn lemma_description_is_stable(reg1: Seq<DeclView>, reg2: Seq<DeclView>, d: DeclView)
    requires
        reg1 == reg2,
    ensures
        describe_shape(reg1, d) == describe_shape(reg2, d),
        d.kind == DeclKind::Union ==> flatten_shape(describe_shape(reg1, d)) == flatten_shape(
            describe_shape(reg2, d),
        ),
{
}

} // verus!
