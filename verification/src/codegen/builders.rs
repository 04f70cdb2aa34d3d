//! Builders of the abstract data types: each part is set on its own, and building fails with the
//! first required part (in the order the type declares its parts) that was not set.
use vstd::prelude::*;

use crate::codegen::isl::IslType;
use crate::codegen::model::{
    fields_view, opt_text, FullyQualifiedTypeReference, Scalar, Sequence, SequenceType, StructField,
    Structure, WrappedScalar, WrappedSequence,
};
use crate::codegen::result::BuilderError;
use crate::text::{copy_string, copy_strings, strings_view};

verus! {

/// The doc comment a builder holds: the one that was set, or none.
pub open spec fn doc_comment_view(d: Option<Option<String>>) -> Option<Seq<char>> {
    match d {
        Some(c) => opt_text(c),
        None => None,
    }
}

/// Whether `r` is the error for the uninitialized part `part`.
pub open spec fn uninitialized<T>(r: Result<T, BuilderError>, part: Seq<char>) -> bool {
    r matches Err(BuilderError::UninitializedField(f)) && f@ == part
}

fn copy_doc_comment(d: &Option<Option<String>>) -> (r: Option<String>)
    ensures
        opt_text(r) == doc_comment_view(*d),
{
    match d {
        Some(Some(c)) => Some(copy_string(c)),
        _ => None,
    }
}

fn uninitialized_field(part: &str) -> (r: BuilderError)
    ensures
        r matches BuilderError::UninitializedField(f) && f@ == part@,
{
    BuilderError::UninitializedField(String::from_str(part))
}

/// Builder of a [`Scalar`].
#[derive(Debug)]
pub struct ScalarBuilder {
    pub base_type: Option<FullyQualifiedTypeReference>,
    pub doc_comment: Option<Option<String>>,
    pub source: Option<IslType>,
}

impl Default for ScalarBuilder {
    fn default() -> (r: Self)
        ensures
            r.base_type is None,
            r.doc_comment is None,
            r.source is None,
    {
        ScalarBuilder { base_type: None, doc_comment: None, source: None }
    }
}

impl ScalarBuilder {
    /// Sets the base type.
    pub fn base_type(&mut self, value: FullyQualifiedTypeReference) -> (r: &mut Self)
        ensures
            *r == (ScalarBuilder { base_type: Some(value), ..*old(self) }),
            *final(self) == *final(r),
    {
        self.base_type = Some(value);
        self
    }

    /// Sets the doc comment.
    pub fn doc_comment(&mut self, value: Option<String>) -> (r: &mut Self)
        ensures
            *r == (ScalarBuilder { doc_comment: Some(value), ..*old(self) }),
            *final(self) == *final(r),
    {
        self.doc_comment = Some(value);
        self
    }

    /// Sets the ISL type the scalar is built from.
    pub fn source(&mut self, value: IslType) -> (r: &mut Self)
        ensures
            *r == (ScalarBuilder { source: Some(value), ..*old(self) }),
            *final(self) == *final(r),
    {
        self.source = Some(value);
        self
    }

    /// Builds the scalar from the parts that were set.
    pub fn build(&self) -> (r: Result<Scalar, BuilderError>)
        ensures
            self.base_type is None ==> uninitialized(r, "base_type"@),
            self.base_type is Some && self.source is None ==> uninitialized(r, "source"@),
            self.base_type is Some && self.source is Some ==> (r matches Ok(s) && s.base_type@
                == self.base_type->0@ && opt_text(s.doc_comment) == doc_comment_view(self.doc_comment)
                && s.source@ == self.source->0@),
    {
        let base_type = match &self.base_type {
            Some(t) => t.copy(),
            None => return Err(uninitialized_field("base_type")),
        };
        let source = match &self.source {
            Some(s) => s.copy(),
            None => return Err(uninitialized_field("source")),
        };
        Ok(Scalar { base_type, doc_comment: copy_doc_comment(&self.doc_comment), source })
    }
}

/// Builder of a [`WrappedScalar`].
#[derive(Debug)]
pub struct WrappedScalarBuilder {
    pub name: Option<Vec<String>>,
    pub base_type: Option<FullyQualifiedTypeReference>,
    pub doc_comment: Option<Option<String>>,
    pub source: Option<IslType>,
}

impl Default for WrappedScalarBuilder {
    fn default() -> (r: Self)
        ensures
            r.name is None,
            r.base_type is None,
            r.doc_comment is None,
            r.source is None,
    {
        WrappedScalarBuilder { name: None, base_type: None, doc_comment: None, source: None }
    }
}

impl WrappedScalarBuilder {
    /// Sets the fully qualified name.
    pub fn name(&mut self, value: Vec<String>) -> (r: &mut Self)
        ensures
            *r == (WrappedScalarBuilder { name: Some(value), ..*old(self) }),
            *final(self) == *final(r),
    {
        self.name = Some(value);
        self
    }

    /// Sets the base type.
    pub fn base_type(&mut self, value: FullyQualifiedTypeReference) -> (r: &mut Self)
        ensures
            *r == (WrappedScalarBuilder { base_type: Some(value), ..*old(self) }),
            *final(self) == *final(r),
    {
        self.base_type = Some(value);
        self
    }

    /// Sets the doc comment.
    pub fn doc_comment(&mut self, value: Option<String>) -> (r: &mut Self)
        ensures
            *r == (WrappedScalarBuilder { doc_comment: Some(value), ..*old(self) }),
            *final(self) == *final(r),
    {
        self.doc_comment = Some(value);
        self
    }

    /// Sets the ISL type the scalar is built from.
    pub fn source(&mut self, value: IslType) -> (r: &mut Self)
        ensures
            *r == (WrappedScalarBuilder { source: Some(value), ..*old(self) }),
            *final(self) == *final(r),
    {
        self.source = Some(value);
        self
    }

    /// Builds the wrapped scalar from the parts that were set.
    pub fn build(&self) -> (r: Result<WrappedScalar, BuilderError>)
        ensures
            self.name is None ==> uninitialized(r, "name"@),
            self.name is Some && self.base_type is None ==> uninitialized(r, "base_type"@),
            self.name is Some && self.base_type is Some && self.source is None ==> uninitialized(
                r,
                "source"@,
            ),
            self.name is Some && self.base_type is Some && self.source is Some ==> (r matches Ok(s)
                && strings_view(s.name@) == strings_view(self.name->0@) && s.base_type@
                == self.base_type->0@ && opt_text(s.doc_comment) == doc_comment_view(self.doc_comment)
                && s.source@ == self.source->0@),
    {
        let name = match &self.name {
            Some(n) => copy_strings(n),
            None => return Err(uninitialized_field("name")),
        };
        let base_type = match &self.base_type {
            Some(t) => t.copy(),
            None => return Err(uninitialized_field("base_type")),
        };
        let source = match &self.source {
            Some(s) => s.copy(),
            None => return Err(uninitialized_field("source")),
        };
        Ok(WrappedScalar { name, base_type, doc_comment: copy_doc_comment(&self.doc_comment), source })
    }
}

/// Builder of a [`Sequence`].
#[derive(Debug)]
pub struct SequenceBuilder {
    pub doc_comment: Option<Option<String>>,
    pub element_type: Option<FullyQualifiedTypeReference>,
    pub sequence_type: Option<SequenceType>,
    pub source: Option<IslType>,
}

impl Default for SequenceBuilder {
    fn default() -> (r: Self)
        ensures
            r.doc_comment is None,
            r.element_type is None,
            r.sequence_type is None,
            r.source is None,
    {
        SequenceBuilder { doc_comment: None, element_type: None, sequence_type: None, source: None }
    }
}

impl SequenceBuilder {
    /// Sets the doc comment.
    pub fn doc_comment(&mut self, value: Option<String>) -> (r: &mut Self)
        ensures
            *r == (SequenceBuilder { doc_comment: Some(value), ..*old(self) }),
            *final(self) == *final(r),
    {
        self.doc_comment = Some(value);
        self
    }

    /// Sets the type of the elements.
    pub fn element_type(&mut self, value: FullyQualifiedTypeReference) -> (r: &mut Self)
        ensures
            *r == (SequenceBuilder { element_type: Some(value), ..*old(self) }),
            *final(self) == *final(r),
    {
        self.element_type = Some(value);
        self
    }

    /// Sets whether the sequence is a list or an s-expression.
    pub fn sequence_type(&mut self, value: SequenceType) -> (r: &mut Self)
        ensures
            *r == (SequenceBuilder { sequence_type: Some(value), ..*old(self) }),
            *final(self) == *final(r),
    {
        self.sequence_type = Some(value);
        self
    }

    /// Sets the ISL type the sequence is built from.
    pub fn source(&mut self, value: IslType) -> (r: &mut Self)
        ensures
            *r == (SequenceBuilder { source: Some(value), ..*old(self) }),
            *final(self) == *final(r),
    {
        self.source = Some(value);
        self
    }

    /// Builds the sequence from the parts that were set.
    pub fn build(&self) -> (r: Result<Sequence, BuilderError>)
        ensures
            self.element_type is None ==> uninitialized(r, "element_type"@),
            self.element_type is Some && self.sequence_type is None ==> uninitialized(
                r,
                "sequence_type"@,
            ),
            self.element_type is Some && self.sequence_type is Some && self.source is None
                ==> uninitialized(r, "source"@),
            self.element_type is Some && self.sequence_type is Some && self.source is Some ==> (r matches Ok(
                s,
            ) && opt_text(s.doc_comment) == doc_comment_view(self.doc_comment) && s.element_type@
                == self.element_type->0@ && s.sequence_type == self.sequence_type->0 && s.source@
                == self.source->0@),
    {
        let element_type = match &self.element_type {
            Some(t) => t.copy(),
            None => return Err(uninitialized_field("element_type")),
        };
        let sequence_type = match self.sequence_type {
            Some(t) => t,
            None => return Err(uninitialized_field("sequence_type")),
        };
        let source = match &self.source {
            Some(s) => s.copy(),
            None => return Err(uninitialized_field("source")),
        };
        Ok(Sequence { doc_comment: copy_doc_comment(&self.doc_comment), element_type, sequence_type, source })
    }
}

/// Builder of a [`WrappedSequence`].
#[derive(Debug)]
pub struct WrappedSequenceBuilder {
    pub name: Option<Vec<String>>,
    pub doc_comment: Option<Option<String>>,
    pub element_type: Option<FullyQualifiedTypeReference>,
    pub sequence_type: Option<SequenceType>,
    pub source: Option<IslType>,
}

impl Default for WrappedSequenceBuilder {
    fn default() -> (r: Self)
        ensures
            r.name is None,
            r.doc_comment is None,
            r.element_type is None,
            r.sequence_type is None,
            r.source is None,
    {
        WrappedSequenceBuilder { name: None, doc_comment: None, element_type: None, sequence_type: None, source: None }
    }
}

impl WrappedSequenceBuilder {
    /// Sets the fully qualified name.
    pub fn name(&mut self, value: Vec<String>) -> (r: &mut Self)
        ensures
            *r == (WrappedSequenceBuilder { name: Some(value), ..*old(self) }),
            *final(self) == *final(r),
    {
        self.name = Some(value);
        self
    }

    /// Sets the doc comment.
    pub fn doc_comment(&mut self, value: Option<String>) -> (r: &mut Self)
        ensures
            *r == (WrappedSequenceBuilder { doc_comment: Some(value), ..*old(self) }),
            *final(self) == *final(r),
    {
        self.doc_comment = Some(value);
        self
    }

    /// Sets the type of the elements.
    pub fn element_type(&mut self, value: FullyQualifiedTypeReference) -> (r: &mut Self)
        ensures
            *r == (WrappedSequenceBuilder { element_type: Some(value), ..*old(self) }),
            *final(self) == *final(r),
    {
        self.element_type = Some(value);
        self
    }

    /// Sets whether the sequence is a list or an s-expression.
    pub fn sequence_type(&mut self, value: SequenceType) -> (r: &mut Self)
        ensures
            *r == (WrappedSequenceBuilder { sequence_type: Some(value), ..*old(self) }),
            *final(self) == *final(r),
    {
        self.sequence_type = Some(value);
        self
    }

    /// Sets the ISL type the sequence is built from.
    pub fn source(&mut self, value: IslType) -> (r: &mut Self)
        ensures
            *r == (WrappedSequenceBuilder { source: Some(value), ..*old(self) }),
            *final(self) == *final(r),
    {
        self.source = Some(value);
        self
    }

    /// Builds the wrapped sequence from the parts that were set.
    pub fn build(&self) -> (r: Result<WrappedSequence, BuilderError>)
        ensures
            self.name is None ==> uninitialized(r, "name"@),
            self.name is Some && self.element_type is None ==> uninitialized(r, "element_type"@),
            self.name is Some && self.element_type is Some && self.sequence_type is None
                ==> uninitialized(r, "sequence_type"@),
            self.name is Some && self.element_type is Some && self.sequence_type is Some
                && self.source is None ==> uninitialized(r, "source"@),
            self.name is Some && self.element_type is Some && self.sequence_type is Some
                && self.source is Some ==> (r matches Ok(s) && strings_view(s.name@) == strings_view(
                self.name->0@,
            ) && opt_text(s.doc_comment) == doc_comment_view(self.doc_comment) && s.element_type@
                == self.element_type->0@ && s.sequence_type == self.sequence_type->0 && s.source@
                == self.source->0@),
    {
        let name = match &self.name {
            Some(n) => copy_strings(n),
            None => return Err(uninitialized_field("name")),
        };
        let element_type = match &self.element_type {
            Some(t) => t.copy(),
            None => return Err(uninitialized_field("element_type")),
        };
        let sequence_type = match self.sequence_type {
            Some(t) => t,
            None => return Err(uninitialized_field("sequence_type")),
        };
        let source = match &self.source {
            Some(s) => s.copy(),
            None => return Err(uninitialized_field("source")),
        };
        Ok(
            WrappedSequence {
                name,
                doc_comment: copy_doc_comment(&self.doc_comment),
                element_type,
                sequence_type,
                source,
            },
        )
    }
}

/// Builder of a [`Structure`].
#[derive(Debug)]
pub struct StructureBuilder {
    pub name: Option<Vec<String>>,
    pub doc_comment: Option<Option<String>>,
    pub is_closed: Option<bool>,
    pub fields: Option<Vec<StructField>>,
    pub source: Option<IslType>,
}

impl Default for StructureBuilder {
    fn default() -> (r: Self)
        ensures
            r.name is None,
            r.doc_comment is None,
            r.is_closed is None,
            r.fields is None,
            r.source is None,
    {
        StructureBuilder { name: None, doc_comment: None, is_closed: None, fields: None, source: None }
    }
}

impl StructureBuilder {
    /// Sets the fully qualified name.
    pub fn name(&mut self, value: Vec<String>) -> (r: &mut Self)
        ensures
            *r == (StructureBuilder { name: Some(value), ..*old(self) }),
            *final(self) == *final(r),
    {
        self.name = Some(value);
        self
    }

    /// Sets the doc comment.
    pub fn doc_comment(&mut self, value: Option<String>) -> (r: &mut Self)
        ensures
            *r == (StructureBuilder { doc_comment: Some(value), ..*old(self) }),
            *final(self) == *final(r),
    {
        self.doc_comment = Some(value);
        self
    }

    /// Sets whether the structure has closed content.
    pub fn is_closed(&mut self, value: bool) -> (r: &mut Self)
        ensures
            *r == (StructureBuilder { is_closed: Some(value), ..*old(self) }),
            *final(self) == *final(r),
    {
        self.is_closed = Some(value);
        self
    }

    /// Sets the fields.
    pub fn fields(&mut self, value: Vec<StructField>) -> (r: &mut Self)
        ensures
            *r == (StructureBuilder { fields: Some(value), ..*old(self) }),
            *final(self) == *final(r),
    {
        self.fields = Some(value);
        self
    }

    /// Sets the ISL type the structure is built from.
    pub fn source(&mut self, value: IslType) -> (r: &mut Self)
        ensures
            *r == (StructureBuilder { source: Some(value), ..*old(self) }),
            *final(self) == *final(r),
    {
        self.source = Some(value);
        self
    }

    /// Builds the structure from the parts that were set.
    pub fn build(&self) -> (r: Result<Structure, BuilderError>)
        ensures
            self.name is None ==> uninitialized(r, "name"@),
            self.name is Some && self.is_closed is None ==> uninitialized(r, "is_closed"@),
            self.name is Some && self.is_closed is Some && self.fields is None ==> uninitialized(
                r,
                "fields"@,
            ),
            self.name is Some && self.is_closed is Some && self.fields is Some && self.source is None
                ==> uninitialized(r, "source"@),
            self.name is Some && self.is_closed is Some && self.fields is Some && self.source is Some
                ==> (r matches Ok(s) && strings_view(s.name@) == strings_view(self.name->0@)
                && opt_text(s.doc_comment) == doc_comment_view(self.doc_comment) && s.is_closed
                == self.is_closed->0 && fields_view(s.fields@) == fields_view(self.fields->0@)
                && s.source@ == self.source->0@),
    {
        let name = match &self.name {
            Some(n) => copy_strings(n),
            None => return Err(uninitialized_field("name")),
        };
        let is_closed = match self.is_closed {
            Some(c) => c,
            None => return Err(uninitialized_field("is_closed")),
        };
        let fields = match &self.fields {
            Some(f) => crate::codegen::model::copy_fields(f),
            None => return Err(uninitialized_field("fields")),
        };
        let source = match &self.source {
            Some(s) => s.copy(),
            None => return Err(uninitialized_field("source")),
        };
        Ok(Structure { name, doc_comment: copy_doc_comment(&self.doc_comment), is_closed, fields, source })
    }
}

} // verus!
