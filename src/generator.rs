//! Turns parsed declarations into metadata, through a registry of the
//! participating types.
use vstd::prelude::*;

use crate::declaration::{has_duplicate_names, has_unique_names, DeclError, DeclKind, DeclView, Declaration};
use crate::model::{
    copy_fields, lemma_variants_view_push, variants_view, EnumData, EnumView, FieldView, ObjectData,
    ObjectView, Variant, VariantView,
};
use crate::parser::{parse_declaration, parse_spec};

verus! {

/// The declaration registered under `name`, if any.
pub open spec fn lookup(reg: Seq<DeclView>, name: Seq<char>) -> Option<DeclView> {
    if exists|i: int| 0 <= i < reg.len() && reg[i].name == name {
        Some(reg[choose|i: int| 0 <= i < reg.len() && reg[i].name == name])
    } else {
        None
    }
}

/// The arm that a union member becomes, with what is known of its wrapped type.
pub open spec fn arm_shape(m: FieldView, nested: Option<ObjectView>) -> VariantView {
    VariantView { name: m.name, ty: m.ty, nested }
}

/// A declaration's own metadata, without looking at any other type.
pub open spec fn shallow_shape(d: DeclView) -> ObjectView {
    match d.kind {
        DeclKind::Record => ObjectView::FieldList(d.members),
        DeclKind::Union => ObjectView::EnumData(
            EnumView { name: d.name, variants: d.members.map_values(|m: FieldView| arm_shape(m, None)) },
        ),
    }
}

/// What an arm wrapping the type `ty` holds as nested metadata: that type's
/// own metadata if it is registered, nothing otherwise.
pub open spec fn nested_shape(reg: Seq<DeclView>, ty: Seq<char>) -> Option<ObjectView> {
    match lookup(reg, ty) {
        Some(w) => Some(shallow_shape(w)),
        None => None,
    }
}

/// The metadata of a declaration: a record's fields in declared order, or a
/// union's arms in declared order, each with its wrapped type's metadata one
/// level deep.
pub open spec fn describe_shape(reg: Seq<DeclView>, d: DeclView) -> ObjectView {
    match d.kind {
        DeclKind::Record => ObjectView::FieldList(d.members),
        DeclKind::Union => ObjectView::EnumData(
            EnumView {
                name: d.name,
                variants: d.members.map_values(|m: FieldView| arm_shape(m, nested_shape(reg, m.ty))),
            },
        ),
    }
}

/// The participating types, each under a distinct name.
pub struct Registry {
    decls: Vec<Declaration>,
}

impl View for Registry {
    type V = Seq<DeclView>;

    closed spec fn view(&self) -> Seq<DeclView> {
        self.decls@.map_values(|d: Declaration| d@)
    }
}

impl Registry {
    /// Type names are distinct, and so are the member names of each declaration.
    pub open spec fn wf(&self) -> bool {
        &&& forall|i: int, j: int|
            0 <= i < j < self@.len() ==> (#[trigger] self@[i]).name != (#[trigger] self@[j]).name
        &&& forall|i: int| 0 <= i < self@.len() ==> has_unique_names(#[trigger] self@[i].members)
    }

    pub fn new() -> (r: Registry)
        ensures
            r.wf(),
            r@ == Seq::<DeclView>::empty(),
    {
        let r = Registry { decls: Vec::new() };
        assert(r@ =~= Seq::<DeclView>::empty());
        r
    }

    /// The position of the declaration named `name`.
    fn position(&self, name: &String) -> (r: Option<usize>)
        requires
            self.wf(),
        ensures
            match r {
                Some(k) => k < self@.len() && self@[k as int].name == name@ && lookup(self@, name@)
                    == Some(self@[k as int]),
                None => lookup(self@, name@) is None,
            },
    {
        let mut k: usize = 0;
        while k < self.decls.len()
            invariant
                self.wf(),
                k <= self.decls@.len(),
                self.decls@.len() == self@.len(),
                forall|i: int| 0 <= i < k ==> self@[i].name != name@,
            decreases self.decls.len() - k,
        {
            if self.decls[k].name == *name {
                assert(self@[k as int].name == name@);
                let ghost c = choose|i: int| 0 <= i < self@.len() && self@[i].name == name@;
                assert(self@[c].name == name@);
                assert(c == k) by {
                    if c < k {
                        assert(self@[c].name != self@[k as int].name);
                    } else if c > k {
                        assert(self@[k as int].name != self@[c].name);
                    }
                }
                return Some(k);
            }
            k = k + 1;
        }
        None
    }

    /// Adds a parsed declaration. It is refused when two of its members share a
    /// name, or when a type of its name is already registered.
    pub fn register_parsed(&mut self, d: Declaration) -> (r: Result<(), DeclError>)
        requires
            old(self).wf(),
        ensures
            final(self).wf(),
            !has_unique_names(d@.members) ==> r == Err::<(), DeclError>(DeclError::DuplicateName)
                && final(self)@ == old(self)@,
            has_unique_names(d@.members) && lookup(old(self)@, d@.name) is Some ==> r == Err::<
                (),
                DeclError,
            >(DeclError::AlreadyRegistered) && final(self)@ == old(self)@,
            has_unique_names(d@.members) && lookup(old(self)@, d@.name) is None ==> r is Ok
                && final(self)@ == old(self)@.push(d@),
    {
        if has_duplicate_names(&d.members) {
            return Err(DeclError::DuplicateName);
        }
        if self.position(&d.name).is_some() {
            return Err(DeclError::AlreadyRegistered);
        }
        let ghost before = self@;
        self.decls.push(d);
        assert(self@ =~= before.push(d@));
        assert forall|i: int, j: int| 0 <= i < j < self@.len() implies (#[trigger] self@[i]).name
            != (#[trigger] self@[j]).name by {
            if j == before.len() {
                assert(!(0 <= i < before.len() && before[i].name == d@.name));
            }
        }
        Ok(())
    }

    /// Parses the text of a declaration and adds it. A declaration that does not
    /// parse, that gives two members one name, or whose name is taken, is refused
    /// and the registry is left as it was.
    pub fn register(&mut self, text: &str) -> (r: Result<(), DeclError>)
        requires
            old(self).wf(),
        ensures
            final(self).wf(),
            match parse_spec(text@) {
                Err(e) => r == Err::<(), DeclError>(e) && final(self)@ == old(self)@,
                Ok(d) => {
                    &&& !has_unique_names(d.members) ==> r == Err::<(), DeclError>(
                        DeclError::DuplicateName,
                    ) && final(self)@ == old(self)@
                    &&& has_unique_names(d.members) && lookup(old(self)@, d.name) is Some ==> r
                        == Err::<(), DeclError>(DeclError::AlreadyRegistered) && final(self)@ == old(
                        self,
                    )@
                    &&& has_unique_names(d.members) && lookup(old(self)@, d.name) is None ==> r is Ok
                        && final(self)@ == old(self)@.push(d)
                },
            },
    {
        match parse_declaration(text) {
            Err(e) => Err(e),
            Ok(d) => self.register_parsed(d),
        }
    }

    /// A declaration's own metadata, with nothing nested.
    fn shallow(d: &Declaration) -> (r: ObjectData)
        ensures
            r@ == shallow_shape(d@),
    {
        match d.kind {
            DeclKind::Record => ObjectData::FieldList(copy_fields(&d.members)),
            DeclKind::Union => {
                let mut variants: Vec<Variant> = Vec::new();
                let mut i: usize = 0;
                while i < d.members.len()
                    invariant
                        d.kind == DeclKind::Union,
                        i <= d.members@.len(),
                        variants_view(variants@) =~= d@.members.subrange(0, i as int).map_values(
                            |m: FieldView| arm_shape(m, None),
                        ),
                    decreases d.members.len() - i,
                {
                    let m = &d.members[i];
                    let v = Variant { name: m.name.clone(), ty: m.ty.clone(), nested: None };
                    proof {
                        lemma_variants_view_push(variants@, v);
                    }
                    variants.push(v);
                    i = i + 1;
                    assert(d@.members.subrange(0, i as int) =~= d@.members.subrange(0, i - 1).push(
                        d@.members[i - 1],
                    ));
                }
                assert(d@.members.subrange(0, i as int) =~= d@.members);
                ObjectData::EnumData(EnumData { name: d.name.clone(), variants })
            },
        }
    }

    /// The metadata of the type registered as `name`, if it is registered.
    pub fn describe(&self, name: &str) -> (r: Option<ObjectData>)
        requires
            self.wf(),
        ensures
            match lookup(self@, name@) {
                Some(d) => r is Some && r->0@ == describe_shape(self@, d),
                None => r is None,
            },
    {
        let key = String::from_str(name);
        match self.position(&key) {
            None => None,
            Some(k) => Some(self.describe_at(k)),
        }
    }

    /// The metadata of the declaration at position `k`.
    fn describe_at(&self, k: usize) -> (r: ObjectData)
        requires
            self.wf(),
            k < self@.len(),
        ensures
            r@ == describe_shape(self@, self@[k as int]),
    {
        let d = &self.decls[k];
        assert(d@ == self@[k as int]);
        match d.kind {
            DeclKind::Record => ObjectData::FieldList(copy_fields(&d.members)),
            DeclKind::Union => {
                let mut variants: Vec<Variant> = Vec::new();
                let mut i: usize = 0;
                while i < d.members.len()
                    invariant
                        self.wf(),
                        d@ == self@[k as int],
                        d.kind == DeclKind::Union,
                        i <= d.members@.len(),
                        variants_view(variants@) =~= d@.members.subrange(0, i as int).map_values(
                            |m: FieldView| arm_shape(m, nested_shape(self@, m.ty)),
                        ),
                    decreases d.members.len() - i,
                {
                    let m = &d.members[i];
                    let nested = match self.position(&m.ty) {
                        Some(w) => Some(Self::shallow(&self.decls[w])),
                        None => None,
                    };
                    let v = Variant { name: m.name.clone(), ty: m.ty.clone(), nested };
                    proof {
                        lemma_variants_view_push(variants@, v);
                    }
                    variants.push(v);
                    i = i + 1;
                    assert(d@.members.subrange(0, i as int) =~= d@.members.subrange(0, i - 1).push(
                        d@.members[i - 1],
                    ));
                }
                assert(d@.members.subrange(0, i as int) =~= d@.members);
                ObjectData::EnumData(EnumData { name: d.name.clone(), variants })
            },
        }
    }
}

} // verus!
