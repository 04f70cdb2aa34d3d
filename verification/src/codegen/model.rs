//! The data model that code generation builds from ISL type definitions and that templates render.
use vstd::prelude::*;

use crate::codegen::isl::{IslType, TypeSpec};
use crate::codegen::utils::Language;
use crate::text::{copy_string, copy_strings, join, join_strings, str_equals, string_from_chars, strings_view};

verus! {

/// The value of a [`FullyQualifiedTypeReference`]: the parts of its qualified name and its
/// type parameters.
pub struct TypeReference {
    pub qualified_name: Seq<Seq<char>>,
    pub parameters: Seq<TypeReference>,
}

/// A fully qualified type name for a type reference, with the type parameters of generic types.
/// e.g. `org.example.Foo` in Java, `org::example::Foo` in Rust.
#[derive(Debug, PartialEq, Eq, Hash)]
pub struct FullyQualifiedTypeReference {
    /// The parts of the fully qualified name (e.g. `["org", "example", "Foo"]`).
    pub qualified_name: Vec<String>,
    /// The type parameters, for types with parameters.
    pub parameters: Vec<FullyQualifiedTypeReference>,
}

pub open spec fn fq_type_view(t: FullyQualifiedTypeReference) -> TypeReference
    decreases t,
{
    TypeReference {
        qualified_name: strings_view(t.qualified_name@),
        parameters: Seq::new(
            t.parameters@.len(),
            |i: int| if 0 <= i < t.parameters@.len() { fq_type_view(t.parameters@[i]) } else { arbitrary() },
        ),
    }
}

impl View for FullyQualifiedTypeReference {
    type V = TypeReference;

    open spec fn view(&self) -> TypeReference {
        fq_type_view(*self)
    }
}

/// The type reference with the given name and no parameters.
pub open spec fn named_type(name: Seq<Seq<char>>) -> TypeReference {
    TypeReference { qualified_name: name, parameters: Seq::empty() }
}

/// The text of a type reference: its qualified name joined by `sep`, followed by its parameters
/// between `<` and `>`, separated by `, `, when it has any.
pub open spec fn type_reference_text(t: TypeReference, sep: Seq<char>) -> Seq<char>
    decreases t, 1nat,
{
    if t.parameters.len() == 0 {
        join(t.qualified_name, sep)
    } else {
        join(t.qualified_name, sep) + "<"@ + join(parameters_text(t.parameters, sep), ", "@) + ">"@
    }
}

/// The texts of a sequence of type references.
pub open spec fn parameters_text(ps: Seq<TypeReference>, sep: Seq<char>) -> Seq<Seq<char>>
    decreases ps, 0nat,
{
    if ps.len() == 0 {
        Seq::empty()
    } else {
        parameters_text(ps.drop_last(), sep).push(type_reference_text(ps.last(), sep))
    }
}

impl FullyQualifiedTypeReference {
    /// The reference to the type with the given fully qualified name and no parameters.
    pub fn from_name(qualified_name: Vec<String>) -> (r: Self)
        ensures
            r@ == named_type(strings_view(qualified_name@)),
    {
        let r = FullyQualifiedTypeReference { qualified_name, parameters: Vec::new() };
        assert(r@.parameters =~= Seq::<TypeReference>::empty());
        r
    }

    /// The reference to the type named by the single name `name`, with no parameters.
    pub fn simple(name: String) -> (r: Self)
        ensures
            r@ == named_type(seq![name@]),
    {
        let mut v: Vec<String> = Vec::new();
        v.push(name);
        assert(strings_view(v@) =~= seq![v@[0]@]);
        Self::from_name(v)
    }

    /// Replaces the type parameters of this type reference.
    pub fn with_parameters(&mut self, parameters: Vec<FullyQualifiedTypeReference>)
        ensures
            final(self)@ == (TypeReference {
                qualified_name: old(self)@.qualified_name,
                parameters: Seq::new(parameters@.len(), |i: int| parameters@[i]@),
            }),
    {
        self.parameters = parameters;
        proof {
            let a = fq_type_view(*self).parameters;
            let b = Seq::new(parameters@.len(), |i: int| parameters@[i]@);
            assert(a =~= b);
        }
    }

    /// Copies this type reference.
    #[verifier::loop_isolation(false)]
    pub fn copy(&self) -> (r: Self)
        ensures
            r@ == self@,
        decreases self,
    {
        let name = copy_strings(&self.qualified_name);
        let mut params: Vec<FullyQualifiedTypeReference> = Vec::new();
        let mut i: usize = 0;
        while i < self.parameters.len()
            invariant
                i <= self.parameters@.len(),
                params@.len() == i,
                forall|j: int| 0 <= j < i ==> #[trigger] params@[j]@ == self.parameters@[j]@,
            decreases self.parameters@.len() - i,
        {
            params.push(self.parameters[i].copy());
            i = i + 1;
        }
        let r = FullyQualifiedTypeReference { qualified_name: name, parameters: params };
        proof {
            let x = fq_type_view(r).parameters;
            let y = fq_type_view(*self).parameters;
            assert forall|k: int| 0 <= k < x.len() implies x[k] == y[k] by {
                assert(params@[k]@ == self.parameters@[k]@);
            }
            assert(x =~= y);
        }
        r
    }

    /// Whether this type reference and `other` name the same type with the same parameters.
    #[verifier::loop_isolation(false)]
    pub fn same_as(&self, other: &FullyQualifiedTypeReference) -> (r: bool)
        ensures
            r == (self@ == other@),
        decreases self,
    {
        let n = self.qualified_name.len();
        if n != other.qualified_name.len() || self.parameters.len() != other.parameters.len() {
            proof {
                if self@ == other@ {
                    assert(self@.qualified_name.len() == other@.qualified_name.len());
                    assert(self@.parameters.len() == other@.parameters.len());
                }
            }
            return false;
        }
        let mut i: usize = 0;
        while i < n
            invariant
                i <= n,
                n == self.qualified_name@.len(),
                n == other.qualified_name@.len(),
                forall|j: int| 0 <= j < i ==> self@.qualified_name[j] == other@.qualified_name[j],
            decreases n - i,
        {
            if !str_equals(self.qualified_name[i].as_str(), other.qualified_name[i].as_str()) {
                proof {
                    assert(self@.qualified_name[i as int] != other@.qualified_name[i as int]);
                }
                return false;
            }
            i = i + 1;
        }
        let m = self.parameters.len();
        let mut k: usize = 0;
        while k < m
            invariant
                k <= m,
                m == self.parameters@.len(),
                m == other.parameters@.len(),
                forall|j: int| 0 <= j < k ==> self@.parameters[j] == other@.parameters[j],
            decreases m - k,
        {
            if !self.parameters[k].same_as(&other.parameters[k]) {
                proof {
                    assert(self@.parameters[k as int] != other@.parameters[k as int]);
                }
                return false;
            }
            k = k + 1;
        }
        proof {
            assert(self@.qualified_name =~= other@.qualified_name);
            assert(self@.parameters =~= other@.parameters);
        }
        true
    }

    /// The text of this type reference for the language `L`: the qualified name joined by the
    /// language's namespace separator, followed by the parameters between `<` and `>`.
    /// e.g. `java.util.ArrayList<Integer>` in Java, `Vec<i64>` in Rust.
    pub fn string_representation<L: Language>(&self) -> (r: String)
        ensures
            r@ == type_reference_text(self@, L::spec_namespace_separator()),
    {
        self.text_with_separator(L::namespace_separator())
    }

    /// The text of this type reference with `sep` between the parts of qualified names.
    #[verifier::loop_isolation(false)]
    pub fn text_with_separator(&self, sep: &str) -> (r: String)
        ensures
            r@ == type_reference_text(self@, sep@),
        decreases self,
    {
        let name = join_strings(&self.qualified_name, sep);
        if self.parameters.len() == 0 {
            return name;
        }
        let ghost tv = self@;
        let mut texts: Vec<String> = Vec::new();
        let mut i: usize = 0;
        while i < self.parameters.len()
            invariant
                i <= self.parameters@.len(),
                tv == self@,
                tv.parameters.len() == self.parameters@.len(),
                strings_view(texts@) == parameters_text(tv.parameters.subrange(0, i as int), sep@),
            decreases self.parameters@.len() - i,
        {
            let t = self.parameters[i].text_with_separator(sep);
            let ghost before = texts@;
            texts.push(t);
            proof {
                assert(tv.parameters[i as int] == self.parameters@[i as int]@);
                assert(tv.parameters.subrange(0, i + 1).drop_last() =~= tv.parameters.subrange(0, i as int));
                assert(strings_view(texts@) =~= strings_view(before).push(t@));
            }
            i = i + 1;
        }
        assert(tv.parameters.subrange(0, i as int) =~= tv.parameters);
        let params = join_strings(&texts, ", ");
        let mut out = name;
        out.append("<");
        out.append(params.as_str());
        out.append(">");
        out
    }
}

/// Whether a sequence type is a list or an s-expression.
#[derive(Debug, Clone, Copy, PartialEq, Eq, Structural)]
pub enum SequenceType {
    List,
    SExp,
}

/// Whether a field is required or optional.
#[derive(Debug, Clone, Copy, PartialEq, Eq, Structural)]
pub enum FieldPresence {
    Required,
    Optional,
}

/// A reference to a field's type by its fully qualified name, with the field's presence.
#[derive(Debug, PartialEq)]
pub struct FieldReference(pub FullyQualifiedTypeReference, pub FieldPresence);

/// A field of a structure: its name and the reference to its value's type.
#[derive(Debug, PartialEq)]
pub struct StructField {
    pub name: String,
    pub reference: FieldReference,
}

/// The value of a [`StructField`].
pub struct FieldSpec {
    pub name: Seq<char>,
    pub type_ref: TypeReference,
    pub presence: FieldPresence,
}

impl View for StructField {
    type V = FieldSpec;

    open spec fn view(&self) -> FieldSpec {
        FieldSpec { name: self.name@, type_ref: self.reference.0@, presence: self.reference.1 }
    }
}

pub open spec fn fields_view(fs: Seq<StructField>) -> Seq<FieldSpec> {
    fs.map_values(|f: StructField| f@)
}

pub open spec fn opt_text(s: Option<String>) -> Option<Seq<char>> {
    match s {
        Some(s) => Some(s@),
        None => None,
    }
}

/// A scalar type (e.g. a string or integer or user defined type), as a nested type.
#[derive(Debug, PartialEq)]
pub struct Scalar {
    /// The fully qualified type of the scalar value.
    pub base_type: FullyQualifiedTypeReference,
    /// The doc comment for the generated code, if one is provided.
    pub doc_comment: Option<String>,
    /// The ISL type this scalar was built from.
    pub source: IslType,
}

/// A scalar type with a name of its own, nominally distinct from its base type.
#[derive(Debug, PartialEq)]
pub struct WrappedScalar {
    /// The fully qualified name of this type.
    pub name: Vec<String>,
    pub base_type: FullyQualifiedTypeReference,
    pub doc_comment: Option<String>,
    pub source: IslType,
}

/// A series of zero or more values of `element_type`, as a nested type.
#[derive(Debug, PartialEq)]
pub struct Sequence {
    pub doc_comment: Option<String>,
    pub element_type: FullyQualifiedTypeReference,
    pub sequence_type: SequenceType,
    pub source: IslType,
}

/// A sequence type with a name of its own, nominally distinct from its element type.
#[derive(Debug, PartialEq)]
pub struct WrappedSequence {
    pub name: Vec<String>,
    pub doc_comment: Option<String>,
    pub element_type: FullyQualifiedTypeReference,
    pub sequence_type: SequenceType,
    pub source: IslType,
}

/// A collection of field name/value pairs.
#[derive(Debug, PartialEq)]
pub struct Structure {
    pub name: Vec<String>,
    pub doc_comment: Option<String>,
    /// Whether the struct has closed content.
    pub is_closed: bool,
    /// The fields, each name at most once.
    pub fields: Vec<StructField>,
    pub source: IslType,
}

/// A target-language-agnostic data type that determines which template to use.
#[derive(Debug, PartialEq)]
pub enum AbstractDataType {
    WrappedScalar(WrappedScalar),
    Scalar(Scalar),
    Sequence(Sequence),
    WrappedSequence(WrappedSequence),
    Structure(Structure),
}

/// The value of an [`AbstractDataType`].
pub enum AdtSpec {
    WrappedScalar {
        name: Seq<Seq<char>>,
        base_type: TypeReference,
        doc_comment: Option<Seq<char>>,
        source: TypeSpec,
    },
    Scalar { base_type: TypeReference, doc_comment: Option<Seq<char>>, source: TypeSpec },
    Sequence {
        doc_comment: Option<Seq<char>>,
        element_type: TypeReference,
        sequence_type: SequenceType,
        source: TypeSpec,
    },
    WrappedSequence {
        name: Seq<Seq<char>>,
        doc_comment: Option<Seq<char>>,
        element_type: TypeReference,
        sequence_type: SequenceType,
        source: TypeSpec,
    },
    Structure {
        name: Seq<Seq<char>>,
        doc_comment: Option<Seq<char>>,
        is_closed: bool,
        fields: Seq<FieldSpec>,
        source: TypeSpec,
    },
}

impl View for AbstractDataType {
    type V = AdtSpec;

    open spec fn view(&self) -> AdtSpec {
        match self {
            AbstractDataType::WrappedScalar(w) => AdtSpec::WrappedScalar {
                name: strings_view(w.name@),
                base_type: w.base_type@,
                doc_comment: opt_text(w.doc_comment),
                source: w.source@,
            },
            AbstractDataType::Scalar(s) => AdtSpec::Scalar {
                base_type: s.base_type@,
                doc_comment: opt_text(s.doc_comment),
                source: s.source@,
            },
            AbstractDataType::Sequence(s) => AdtSpec::Sequence {
                doc_comment: opt_text(s.doc_comment),
                element_type: s.element_type@,
                sequence_type: s.sequence_type,
                source: s.source@,
            },
            AbstractDataType::WrappedSequence(s) => AdtSpec::WrappedSequence {
                name: strings_view(s.name@),
                doc_comment: opt_text(s.doc_comment),
                element_type: s.element_type@,
                sequence_type: s.sequence_type,
                source: s.source@,
            },
            AbstractDataType::Structure(s) => AdtSpec::Structure {
                name: strings_view(s.name@),
                doc_comment: opt_text(s.doc_comment),
                is_closed: s.is_closed,
                fields: fields_view(s.fields@),
                source: s.source@,
            },
        }
    }
}

/// The doc comment of an abstract data type.
pub open spec fn adt_doc_comment(a: AdtSpec) -> Option<Seq<char>> {
    match a {
        AdtSpec::WrappedScalar { doc_comment, .. } => doc_comment,
        AdtSpec::Scalar { doc_comment, .. } => doc_comment,
        AdtSpec::Sequence { doc_comment, .. } => doc_comment,
        AdtSpec::WrappedSequence { doc_comment, .. } => doc_comment,
        AdtSpec::Structure { doc_comment, .. } => doc_comment,
    }
}

/// The type reference that code refers to an abstract data type by, in language `L`:
/// a named type by its name, a scalar by its base type, a sequence by the language's sequence
/// of its element type.
pub open spec fn adt_type_ref<L: Language>(a: AdtSpec) -> TypeReference {
    match a {
        AdtSpec::WrappedScalar { name, .. } => named_type(name),
        AdtSpec::Scalar { base_type, .. } => base_type,
        AdtSpec::Sequence { element_type, .. } => L::spec_target_type_as_sequence(element_type),
        AdtSpec::WrappedSequence { element_type, .. } => L::spec_target_type_as_sequence(element_type),
        AdtSpec::Structure { name, .. } => named_type(name),
    }
}

fn copy_opt_string(s: &Option<String>) -> (r: Option<String>)
    ensures
        opt_text(r) == opt_text(*s),
{
    match s {
        Some(t) => Some(copy_string(t)),
        None => None,
    }
}

impl FieldReference {
    /// Copies this field reference.
    pub fn copy(&self) -> (r: Self)
        ensures
            r.0@ == self.0@,
            r.1 == self.1,
    {
        FieldReference(self.0.copy(), self.1)
    }
}

impl StructField {
    /// Copies this field.
    pub fn copy(&self) -> (r: Self)
        ensures
            r@ == self@,
    {
        StructField { name: copy_string(&self.name), reference: self.reference.copy() }
    }
}

pub fn copy_fields(fs: &Vec<StructField>) -> (r: Vec<StructField>)
    ensures
        fields_view(r@) == fields_view(fs@),
{
    let mut out: Vec<StructField> = Vec::new();
    let mut i: usize = 0;
    while i < fs.len()
        invariant
            i <= fs@.len(),
            out@.len() == i,
            forall|j: int| 0 <= j < i ==> #[trigger] out@[j]@ == fs@[j]@,
        decreases fs@.len() - i,
    {
        out.push(fs[i].copy());
        i = i + 1;
    }
    assert(fields_view(out@) =~= fields_view(fs@));
    out
}

impl AbstractDataType {
    /// Copies this abstract data type.
    pub fn copy(&self) -> (r: Self)
        ensures
            r@ == self@,
    {
        match self {
            AbstractDataType::WrappedScalar(w) => AbstractDataType::WrappedScalar(WrappedScalar {
                name: copy_strings(&w.name),
                base_type: w.base_type.copy(),
                doc_comment: copy_opt_string(&w.doc_comment),
                source: w.source.copy(),
            }),
            AbstractDataType::Scalar(s) => AbstractDataType::Scalar(Scalar {
                base_type: s.base_type.copy(),
                doc_comment: copy_opt_string(&s.doc_comment),
                source: s.source.copy(),
            }),
            AbstractDataType::Sequence(s) => AbstractDataType::Sequence(Sequence {
                doc_comment: copy_opt_string(&s.doc_comment),
                element_type: s.element_type.copy(),
                sequence_type: s.sequence_type,
                source: s.source.copy(),
            }),
            AbstractDataType::WrappedSequence(s) => AbstractDataType::WrappedSequence(WrappedSequence {
                name: copy_strings(&s.name),
                doc_comment: copy_opt_string(&s.doc_comment),
                element_type: s.element_type.copy(),
                sequence_type: s.sequence_type,
                source: s.source.copy(),
            }),
            AbstractDataType::Structure(s) => AbstractDataType::Structure(Structure {
                name: copy_strings(&s.name),
                doc_comment: copy_opt_string(&s.doc_comment),
                is_closed: s.is_closed,
                fields: copy_fields(&s.fields),
                source: s.source.copy(),
            }),
        }
    }

    /// Returns the doc comment of this abstract data type, if it has one.
    pub fn doc_comment(&self) -> (r: Option<&str>)
        ensures
            match r {
                Some(s) => adt_doc_comment(self@) == Some(s@),
                None => adt_doc_comment(self@) is None,
            },
    {
        let c = match self {
            AbstractDataType::WrappedScalar(w) => &w.doc_comment,
            AbstractDataType::Scalar(s) => &s.doc_comment,
            AbstractDataType::Sequence(s) => &s.doc_comment,
            AbstractDataType::WrappedSequence(s) => &s.doc_comment,
            AbstractDataType::Structure(s) => &s.doc_comment,
        };
        match c {
            Some(s) => Some(s.as_str()),
            None => None,
        }
    }

    /// The fully qualified type reference that generated code uses to refer to this type in
    /// language `L`.
    pub fn fully_qualified_type_ref<L: Language>(&self) -> (r: Option<FullyQualifiedTypeReference>)
        ensures
            r matches Some(t) && t@ == adt_type_ref::<L>(self@),
    {
        match self {
            AbstractDataType::WrappedScalar(w) => Some(FullyQualifiedTypeReference::from_name(copy_strings(w.fully_qualified_type_name()))),
            AbstractDataType::Scalar(s) => Some(s.base_type.copy()),
            AbstractDataType::Sequence(seq) => Some(L::target_type_as_sequence(seq.element_type.copy())),
            AbstractDataType::WrappedSequence(seq) => Some(L::target_type_as_sequence(seq.element_type.copy())),
            AbstractDataType::Structure(structure) => Some(FullyQualifiedTypeReference::from_name(copy_strings(&structure.name))),
        }
    }
}

impl WrappedScalar {
    /// The fully qualified name of this wrapped scalar type.
    pub fn fully_qualified_type_name(&self) -> (r: &Vec<String>)
        ensures
            r == &self.name,
    {
        &self.name
    }
}

/// A node in the data model tree of the generated code: a module/package (without a type) or a
/// concrete data structure (class, struct, ...), with the types nested in it.
#[derive(Debug, PartialEq)]
pub struct DataModelNode {
    /// The name of this node (not fully qualified).
    pub name: String,
    /// The type of this node; `None` for modules or packages.
    pub code_gen_type: Option<AbstractDataType>,
    /// The nested types of this node.
    pub nested_types: Vec<DataModelNode>,
}

/// The value of a [`DataModelNode`].
pub struct NodeSpec {
    pub name: Seq<char>,
    pub code_gen_type: Option<AdtSpec>,
    pub nested_types: Seq<NodeSpec>,
}

pub open spec fn node_view(n: DataModelNode) -> NodeSpec
    decreases n,
{
    NodeSpec {
        name: n.name@,
        code_gen_type: match n.code_gen_type {
            Some(a) => Some(a@),
            None => None,
        },
        nested_types: Seq::new(
            n.nested_types@.len(),
            |i: int| if 0 <= i < n.nested_types@.len() { node_view(n.nested_types@[i]) } else { arbitrary() },
        ),
    }
}

impl View for DataModelNode {
    type V = NodeSpec;

    open spec fn view(&self) -> NodeSpec {
        node_view(*self)
    }
}

pub open spec fn nodes_view(ns: Seq<DataModelNode>) -> Seq<NodeSpec> {
    ns.map_values(|n: DataModelNode| n@)
}

/// Copies a list of data model nodes.
pub fn copy_nodes(ns: &Vec<DataModelNode>) -> (r: Vec<DataModelNode>)
    ensures
        nodes_view(r@) == nodes_view(ns@),
{
    let mut out: Vec<DataModelNode> = Vec::new();
    let mut i: usize = 0;
    while i < ns.len()
        invariant
            i <= ns@.len(),
            out@.len() == i,
            forall|j: int| 0 <= j < i ==> #[trigger] out@[j]@ == ns@[j]@,
        decreases ns@.len() - i,
    {
        out.push(ns[i].copy());
        i = i + 1;
    }
    assert(nodes_view(out@) =~= nodes_view(ns@));
    out
}

impl DataModelNode {
    /// Copies this node.
    #[verifier::loop_isolation(false)]
    pub fn copy(&self) -> (r: Self)
        ensures
            r@ == self@,
        decreases self,
    {
        let mut nested: Vec<DataModelNode> = Vec::new();
        let mut i: usize = 0;
        while i < self.nested_types.len()
            invariant
                i <= self.nested_types@.len(),
                nested@.len() == i,
                forall|j: int| 0 <= j < i ==> #[trigger] nested@[j]@ == self.nested_types@[j]@,
            decreases self.nested_types@.len() - i,
        {
            nested.push(self.nested_types[i].copy());
            i = i + 1;
        }
        let t = match &self.code_gen_type {
            Some(a) => Some(a.copy()),
            None => None,
        };
        let r = DataModelNode { name: copy_string(&self.name), code_gen_type: t, nested_types: nested };
        proof {
            let x = node_view(r).nested_types;
            let y = node_view(*self).nested_types;
            assert forall|k: int| 0 <= k < x.len() implies x[k] == y[k] by {
                assert(nested@[k]@ == self.nested_types@[k]@);
            }
            assert(x =~= y);
        }
        r
    }

    /// Returns the name of this data model node.
    pub fn name(&self) -> (r: &str)
        ensures
            r@ == self.name@,
    {
        self.name.as_str()
    }

    /// Whether this node is a scalar.
    pub fn is_scalar(&self) -> (r: bool)
        ensures
            r == (self@.code_gen_type matches Some(AdtSpec::Scalar { .. })),
    {
        matches!(self.code_gen_type, Some(AbstractDataType::Scalar(_)))
    }

    /// Whether this node is a sequence.
    pub fn is_sequence(&self) -> (r: bool)
        ensures
            r == (self@.code_gen_type matches Some(AdtSpec::Sequence { .. })),
    {
        matches!(self.code_gen_type, Some(AbstractDataType::Sequence(_)))
    }

    /// Whether this node is a structure.
    pub fn is_structure(&self) -> (r: bool)
        ensures
            r == (self@.code_gen_type matches Some(AdtSpec::Structure { .. })),
    {
        matches!(self.code_gen_type, Some(AbstractDataType::Structure(_)))
    }

    /// The fully qualified type reference of this node's type, in language `L`; `None` for a
    /// node without a type.
    pub fn fully_qualified_type_ref<L: Language>(&mut self) -> (r: Option<FullyQualifiedTypeReference>)
        ensures
            *final(self) == *old(self),
            match old(self)@.code_gen_type {
                Some(a) => r matches Some(t) && t@ == adt_type_ref::<L>(a),
                None => r is None,
            },
    {
        match &self.code_gen_type {
            Some(t) => t.fully_qualified_type_ref::<L>(),
            None => None,
        }
    }
}

/// A field as templates fill it into a generated class or struct: its name, the name of its
/// abstract data type (`None` for an open-ended type, which code generation reports as an error),
/// and the name of its ISL type.
#[derive(Debug, PartialEq)]
pub struct Field {
    pub name: String,
    pub value_type: Option<String>,
    pub isl_type_name: String,
}

/// The context of the type being generated: the types nested in it so far.
pub struct CodeGenContext {
    pub nested_types: Vec<DataModelNode>,
}

impl CodeGenContext {
    /// A context without nested types.
    pub fn new() -> (r: Self)
        ensures
            r.nested_types@.len() == 0,
    {
        CodeGenContext { nested_types: Vec::new() }
    }
}

} // verus!
