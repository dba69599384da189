//! The metadata tree that describes the shape of a record or a tagged union.
use vstd::prelude::*;

verus! {

broadcast use vstd::std_specs::vec::axiom_vec_decreases_to_view, vstd::seq::axiom_seq_index_decreases;

/// One named member of a record type, with its declared type name taken verbatim.
#[derive(Clone, Debug, PartialEq, Eq)]
pub struct Field {
    pub name: String,
    pub ty: String,
}

/// One arm of a tagged union.
#[derive(Debug, PartialEq, Eq)]
pub struct Variant {
    /// The rename attached to the arm, or else its identifier.
    pub name: String,
    /// The name of the wrapped type, with one level of container unwrapped.
    pub ty: String,
    /// The wrapped type's own metadata, where that type takes part in the mechanism.
    pub nested: Option<ObjectData>,
}

/// The description of a tagged union.
#[derive(Debug, PartialEq, Eq)]
pub struct EnumData {
    pub name: String,
    pub variants: Vec<Variant>,
}

/// The metadata of one type: the fields of a record, or the arms of a tagged union.
#[derive(Debug, PartialEq, Eq)]
pub enum ObjectData {
    EnumData(EnumData),
    FieldList(Vec<Field>),
}

/// A type that can describe its own declared shape.
pub trait ListFields {
    /// The shape that the type's declaration gives it.
    spec fn declared_shape() -> ObjectView;

    fn list_fields() -> (r: ObjectData)
        ensures
            r@ == Self::declared_shape(),
    ;
}

/// The mathematical value of a [`Field`].
pub struct FieldView {
    pub name: Seq<char>,
    pub ty: Seq<char>,
}

/// The mathematical value of a [`Variant`].
pub struct VariantView {
    pub name: Seq<char>,
    pub ty: Seq<char>,
    pub nested: Option<ObjectView>,
}

/// The mathematical value of an [`EnumData`].
pub struct EnumView {
    pub name: Seq<char>,
    pub variants: Seq<VariantView>,
}

/// The mathematical value of an [`ObjectData`].
pub enum ObjectView {
    EnumData(EnumView),
    FieldList(Seq<FieldView>),
}

impl View for Field {
    type V = FieldView;

    open spec fn view(&self) -> FieldView {
        FieldView { name: self.name@, ty: self.ty@ }
    }
}

pub open spec fn fields_view(fs: Seq<Field>) -> Seq<FieldView> {
    fs.map_values(|f: Field| f@)
}

pub open spec fn object_view(o: ObjectData) -> ObjectView
    decreases o,
{
    match o {
        ObjectData::EnumData(e) => ObjectView::EnumData(
            EnumView { name: e.name@, variants: variants_view(e.variants@) },
        ),
        ObjectData::FieldList(fs) => ObjectView::FieldList(fields_view(fs@)),
    }
}

pub open spec fn variant_view(v: Variant) -> VariantView
    decreases v,
{
    VariantView {
        name: v.name@,
        ty: v.ty@,
        nested: match v.nested {
            Some(d) => Some(object_view(d)),
            None => None,
        },
    }
}

pub open spec fn variants_view(vs: Seq<Variant>) -> Seq<VariantView>
    decreases vs,
{
    if vs.len() == 0 {
        Seq::empty()
    } else {
        proof {
            vstd::seq::axiom_seq_subrange_decreases(vs, 0, vs.len() - 1);
        }
        variants_view(vs.drop_last()).push(variant_view(vs.last()))
    }
}

impl View for Variant {
    type V = VariantView;

    open spec fn view(&self) -> VariantView {
        variant_view(*self)
    }
}

impl View for EnumData {
    type V = EnumView;

    open spec fn view(&self) -> EnumView {
        EnumView { name: self.name@, variants: variants_view(self.variants@) }
    }
}

impl View for ObjectData {
    type V = ObjectView;

    open spec fn view(&self) -> ObjectView {
        object_view(*self)
    }
}

/// Appending a variant appends its view.
pub proof fn lemma_variants_view_push(vs: Seq<Variant>, v: Variant)
    ensures
        variants_view(vs.push(v)) == variants_view(vs).push(variant_view(v)),
        variants_view(vs).len() == vs.len(),
{
    assert(vs.push(v).drop_last() =~= vs);
    lemma_variants_view_len(vs);
}

pub proof fn lemma_variants_view_len(vs: Seq<Variant>)
    ensures
        variants_view(vs).len() == vs.len(),
    decreases vs.len(),
{
    if vs.len() > 0 {
        lemma_variants_view_len(vs.drop_last());
    }
}

pub proof fn lemma_variants_view_index(vs: Seq<Variant>, i: int)
    requires
        0 <= i < vs.len(),
    ensures
        variants_view(vs).len() == vs.len(),
        variants_view(vs)[i] == variant_view(vs[i]),
    decreases vs.len(),
{
    lemma_variants_view_len(vs);
    if i < vs.len() - 1 {
        lemma_variants_view_index(vs.drop_last(), i);
    }
}

impl Field {
    /// A copy of the field.
    pub fn duplicate(&self) -> (r: Field)
        ensures
            r@ == self@,
    {
        Field { name: self.name.clone(), ty: self.ty.clone() }
    }
}

/// A copy of a field list.
pub fn copy_fields(fs: &Vec<Field>) -> (r: Vec<Field>)
    ensures
        fields_view(r@) == fields_view(fs@),
{
    let mut r: Vec<Field> = Vec::new();
    let mut i: usize = 0;
    while i < fs.len()
        invariant
            i <= fs.len(),
            r@.len() == i,
            forall|j: int| 0 <= j < i ==> (#[trigger] r@[j])@ == fs@[j]@,
        decreases fs.len() - i,
    {
        let f = fs[i].duplicate();
        r.push(f);
        i = i + 1;
    }
    assert(fields_view(r@) =~= fields_view(fs@));
    r
}

} // verus!
