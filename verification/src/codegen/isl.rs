//! The parts of an Ion Schema (ISL) type definition that code generation reads.
//!
//! A schema loaded by `ion-schema` is converted into these plain values before code generation,
//! so that the conversion from ISL to the data model can be stated and checked here.
use vstd::prelude::*;

use crate::text::copy_string;

verus! {

/// A reference to a type, as it appears in a constraint.
#[derive(Debug, PartialEq)]
pub enum IslTypeRef {
    /// A reference to a named type (a built-in type or a type of the schema).
    Named(String),
    /// A reference to a type imported inline from another schema, by the imported type's name.
    TypeImport(String),
    /// An anonymous, inline type definition.
    Anonymous(Box<IslType>),
}

/// A field of a `fields` constraint: its name, the type of its value, and the inclusive bounds of
/// how often it may occur.
#[derive(Debug, PartialEq)]
pub struct IslField {
    pub name: String,
    pub type_ref: IslTypeRef,
    pub occurs_min: usize,
    pub occurs_max: usize,
}

/// A constraint of a type definition.
#[derive(Debug, PartialEq)]
pub enum IslConstraint {
    /// `type: <type ref>`
    Type(IslTypeRef),
    /// `element: <type ref>`, with whether the elements must be distinct.
    Element(IslTypeRef, bool),
    /// `fields: { ... }`, with whether the content is closed.
    Fields(Vec<IslField>, bool),
    /// `container_length: <range>`, by its inclusive bounds.
    ContainerLength(usize, usize),
    /// Any other constraint; code generation does not support these.
    Other,
}

/// A type definition: an optional name and its constraints.
#[derive(Debug, PartialEq)]
pub struct IslType {
    pub name: Option<String>,
    pub constraints: Vec<IslConstraint>,
}

/// The value of an [`IslTypeRef`].
pub enum TypeRefSpec {
    Named(Seq<char>),
    TypeImport(Seq<char>),
    Anonymous(TypeSpec),
}

/// The value of an [`IslField`].
pub struct IslFieldSpec {
    pub name: Seq<char>,
    pub type_ref: TypeRefSpec,
    pub occurs_min: usize,
    pub occurs_max: usize,
}

/// The value of an [`IslConstraint`].
pub enum ConstraintSpec {
    Type(TypeRefSpec),
    Element(TypeRefSpec, bool),
    Fields(Seq<IslFieldSpec>, bool),
    ContainerLength(usize, usize),
    Other,
}

/// The value of an [`IslType`].
pub struct TypeSpec {
    pub name: Option<Seq<char>>,
    pub constraints: Seq<ConstraintSpec>,
}

pub open spec fn opt_string_view(s: Option<String>) -> Option<Seq<char>> {
    match s {
        Some(s) => Some(s@),
        None => None,
    }
}

pub open spec fn type_ref_view(r: IslTypeRef) -> TypeRefSpec
    decreases r,
{
    match r {
        IslTypeRef::Named(n) => TypeRefSpec::Named(n@),
        IslTypeRef::TypeImport(n) => TypeRefSpec::TypeImport(n@),
        IslTypeRef::Anonymous(t) => TypeRefSpec::Anonymous(type_view(*t)),
    }
}

pub open spec fn field_view(f: IslField) -> IslFieldSpec
    decreases f,
{
    IslFieldSpec {
        name: f.name@,
        type_ref: type_ref_view(f.type_ref),
        occurs_min: f.occurs_min,
        occurs_max: f.occurs_max,
    }
}

pub open spec fn constraint_view(c: IslConstraint) -> ConstraintSpec
    decreases c,
{
    match c {
        IslConstraint::Type(r) => ConstraintSpec::Type(type_ref_view(r)),
        IslConstraint::Element(r, d) => ConstraintSpec::Element(type_ref_view(r), d),
        IslConstraint::Fields(fs, closed) => ConstraintSpec::Fields(isl_fields_view(fs@), closed),
        IslConstraint::ContainerLength(a, b) => ConstraintSpec::ContainerLength(a, b),
        IslConstraint::Other => ConstraintSpec::Other,
    }
}

/// The values of a list of fields.
pub open spec fn isl_fields_view(fs: Seq<IslField>) -> Seq<IslFieldSpec>
    decreases fs,
{
    Seq::new(fs.len(), |i: int| if 0 <= i < fs.len() { field_view(fs[i]) } else { arbitrary() })
}

/// The values of a list of constraints.
pub open spec fn constraints_view(cs: Seq<IslConstraint>) -> Seq<ConstraintSpec>
    decreases cs,
{
    Seq::new(cs.len(), |i: int| if 0 <= i < cs.len() { constraint_view(cs[i]) } else { arbitrary() })
}

pub open spec fn type_view(t: IslType) -> TypeSpec
    decreases t,
{
    TypeSpec {
        name: opt_string_view(t.name),
        constraints: constraints_view(t.constraints@),
    }
}

impl View for IslTypeRef {
    type V = TypeRefSpec;

    open spec fn view(&self) -> TypeRefSpec {
        type_ref_view(*self)
    }
}

impl View for IslField {
    type V = IslFieldSpec;

    open spec fn view(&self) -> IslFieldSpec {
        field_view(*self)
    }
}

impl View for IslConstraint {
    type V = ConstraintSpec;

    open spec fn view(&self) -> ConstraintSpec {
        constraint_view(*self)
    }
}

impl View for IslType {
    type V = TypeSpec;

    open spec fn view(&self) -> TypeSpec {
        type_view(*self)
    }
}

/// The name of a type reference, as `ion-schema` reports it: the referenced name, the imported
/// type's name, or the empty string for an anonymous type.
pub open spec fn type_ref_name(r: TypeRefSpec) -> Seq<char> {
    match r {
        TypeRefSpec::Named(n) => n,
        TypeRefSpec::TypeImport(n) => n,
        TypeRefSpec::Anonymous(_) => Seq::empty(),
    }
}

impl IslTypeRef {
    /// Returns the name of this type reference (empty for an anonymous type).
    pub fn name(&self) -> (r: String)
        ensures
            r@ == type_ref_name(self@),
    {
        match self {
            IslTypeRef::Named(n) => copy_string(n),
            IslTypeRef::TypeImport(n) => copy_string(n),
            IslTypeRef::Anonymous(_) => String::new(),
        }
    }

    /// Copies this type reference.
    pub fn copy(&self) -> (r: Self)
        ensures
            r@ == self@,
        decreases self,
    {
        match self {
            IslTypeRef::Named(n) => IslTypeRef::Named(copy_string(n)),
            IslTypeRef::TypeImport(n) => IslTypeRef::TypeImport(copy_string(n)),
            IslTypeRef::Anonymous(t) => {
                let inner: &IslType = t;
                IslTypeRef::Anonymous(Box::new(inner.copy()))
            },
        }
    }
}

impl IslField {
    /// Copies this field.
    pub fn copy(&self) -> (r: Self)
        ensures
            r@ == self@,
        decreases self,
    {
        IslField {
            name: copy_string(&self.name),
            type_ref: self.type_ref.copy(),
            occurs_min: self.occurs_min,
            occurs_max: self.occurs_max,
        }
    }
}

impl IslConstraint {
    /// Copies this constraint.
    #[verifier::loop_isolation(false)]
    pub fn copy(&self) -> (r: Self)
        ensures
            r@ == self@,
        decreases self,
    {
        match self {
            IslConstraint::Type(r) => IslConstraint::Type(r.copy()),
            IslConstraint::Element(r, d) => IslConstraint::Element(r.copy(), *d),
            IslConstraint::Fields(fs, closed) => {
                let mut out: Vec<IslField> = Vec::new();
                let mut i: usize = 0;
                while i < fs.len()
                    invariant
                        i <= fs@.len(),
                        out@.len() == i,
                        forall|j: int| 0 <= j < i ==> #[trigger] out@[j]@ == fs@[j]@,
                    decreases fs@.len() - i,
                {
                    out.push(fs[i].copy());
                    i = i + 1;
                }
                let r = IslConstraint::Fields(out, *closed);
                proof {
                    let x = match constraint_view(r) { ConstraintSpec::Fields(x, _) => x, _ => Seq::empty() };
                    let y = match constraint_view(*self) { ConstraintSpec::Fields(y, _) => y, _ => Seq::empty() };
                    assert forall|k: int| 0 <= k < x.len() implies x[k] == y[k] by {
                        assert(out@[k]@ == fs@[k]@);
                    }
                    assert(x =~= y);
                }
                r
            },
            IslConstraint::ContainerLength(a, b) => IslConstraint::ContainerLength(*a, *b),
            IslConstraint::Other => IslConstraint::Other,
        }
    }
}

impl IslType {
    /// Copies this type definition.
    #[verifier::loop_isolation(false)]
    pub fn copy(&self) -> (r: Self)
        ensures
            r@ == self@,
        decreases self,
    {
        let name = match &self.name {
            Some(n) => Some(copy_string(n)),
            None => None,
        };
        let mut out: Vec<IslConstraint> = Vec::new();
        let mut i: usize = 0;
        while i < self.constraints.len()
            invariant
                i <= self.constraints@.len(),
                out@.len() == i,
                forall|j: int| 0 <= j < i ==> #[trigger] out@[j]@ == self.constraints@[j]@,
            decreases self.constraints@.len() - i,
        {
            out.push(self.constraints[i].copy());
            i = i + 1;
        }
        let r = IslType { name, constraints: out };
        proof {
            let x = type_view(r).constraints;
            let y = type_view(*self).constraints;
            assert forall|k: int| 0 <= k < x.len() implies x[k] == y[k] by {
                assert(out@[k]@ == self.constraints@[k]@);
            }
            assert(x =~= y);
        }
        r
    }
}

} // verus!
