//! The abstract shape of one declaration, as the parser hands it on.
use vstd::prelude::*;

use crate::model::{fields_view, Field, FieldView};

verus! {

/// Whether a declaration is a record or a tagged union.
#[derive(Clone, Copy, Debug, PartialEq, Eq, Structural)]
pub enum DeclKind {
    Record,
    Union,
}

/// Why a declaration was refused.
#[derive(Clone, Copy, Debug, PartialEq, Eq, Structural)]
pub enum DeclError {
    /// The text does not follow the grammar of a declaration.
    Malformed,
    /// A declared type is neither a bare name nor a container of exactly one bare name.
    UnsupportedType,
    /// Two fields or two arms carry the same name once renames are applied.
    DuplicateName,
    /// A type of the same name has already been registered.
    AlreadyRegistered,
}

/// One parsed declaration. For a record each member is a field name with its
/// declared type; for a tagged union each member is an arm's name, rename
/// applied, with the name of the type it wraps.
#[derive(Clone, Debug, PartialEq, Eq)]
pub struct Declaration {
    pub kind: DeclKind,
    pub name: String,
    pub members: Vec<Field>,
}

/// The mathematical value of a [`Declaration`].
pub struct DeclView {
    pub kind: DeclKind,
    pub name: Seq<char>,
    pub members: Seq<FieldView>,
}

impl View for Declaration {
    type V = DeclView;

    open spec fn view(&self) -> DeclView {
        DeclView { kind: self.kind, name: self.name@, members: fields_view(self.members@) }
    }
}

/// No two members share a name.
pub open spec fn has_unique_names(ms: Seq<FieldView>) -> bool {
    forall|i: int, j: int| 0 <= i < j < ms.len() ==> ms[i].name != ms[j].name
}

/// Whether two of the fields share a name.
pub fn has_duplicate_names(ms: &Vec<Field>) -> (r: bool)
    ensures
        r == !has_unique_names(fields_view(ms@)),
{
    let ghost v = fields_view(ms@);
    let mut j: usize = 0;
    while j < ms.len()
        invariant
            j <= ms.len(),
            v == fields_view(ms@),
            forall|a: int, b: int| 0 <= a < b < j ==> v[a].name != v[b].name,
        decreases ms.len() - j,
    {
        let mut i: usize = 0;
        while i < j
            invariant
                i <= j < ms.len(),
                v == fields_view(ms@),
                forall|a: int| 0 <= a < i ==> v[a].name != v[j as int].name,
            decreases j - i,
        {
            if ms[i].name == ms[j].name {
                assert(v[i as int].name == v[j as int].name);
                return true;
            }
            i = i + 1;
        }
        j = j + 1;
    }
    false
}

} // verus!
