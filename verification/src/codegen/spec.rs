//! What converting ISL type definitions to the data model produces, stated over values.
use vstd::prelude::*;

use crate::codegen::isl::{type_ref_name, ConstraintSpec, IslFieldSpec, TypeRefSpec, TypeSpec};
use crate::codegen::model::{adt_type_ref, named_type, AdtSpec, FieldPresence, FieldSpec, NodeSpec, SequenceType, TypeReference};
use crate::codegen::result::{uninitialized_field_text, CodeGenErrorSpec};
use crate::codegen::utils::{schema_ty_name_unsupported, schema_type_of_name, upper_camel_case, Language};
use crate::text::decimal;

verus! {

/// The state of a code generator: the namespace of the type being generated, the counter of
/// nested type names, and the store of generated types by their type references.
pub struct GenState {
    pub namespace: Seq<Seq<char>>,
    pub counter: nat,
    pub store: Seq<(TypeReference, NodeSpec)>,
}

/// The outcome of a step of code generation: a value, an error, or a stop of the program
/// (the generator stops at an input it does not support).
pub enum Outcome<T> {
    Done(T),
    Failed(CodeGenErrorSpec),
    Stopped,
}

/// A step's outcome with the generator state and the nested types of the current context after it.
pub struct Step<T> {
    pub outcome: Outcome<T>,
    pub state: GenState,
    pub nested: Seq<NodeSpec>,
}

pub open spec fn step<T>(outcome: Outcome<T>, state: GenState, nested: Seq<NodeSpec>) -> Step<T> {
    Step { outcome, state, nested }
}

pub open spec fn invalid(text: Seq<char>) -> CodeGenErrorSpec {
    CodeGenErrorSpec::InvalidDataModel(text)
}

pub open spec fn conflicting_constraints_text() -> Seq<char> {
    "Could not determine the abstract data type due to conflicting constraints"@
}


pub open spec fn undetermined_type_text(name: Seq<char>) -> Seq<char> {
    "Could not determine `FullQualifiedTypeReference` for type "@ + name
}

pub open spec fn occurs_range_text() -> Seq<char> {
    "Fields with occurs as a range aren't supported with code generation"@
}

pub open spec fn unnamed_field_type_text() -> Seq<char> {
    "Given type doesn't have a name"@
}

/// The index of the last entry of `store` whose key is `k`, or -1.
pub open spec fn store_index(store: Seq<(TypeReference, NodeSpec)>, k: TypeReference) -> int
    decreases store.len(),
{
    if store.len() == 0 {
        -1
    } else if store.last().0 == k {
        store.len() - 1
    } else {
        store_index(store.drop_last(), k)
    }
}

/// The store after associating `k` with `v`: an entry with key `k` is replaced, otherwise one is
/// added.
pub open spec fn store_insert(store: Seq<(TypeReference, NodeSpec)>, k: TypeReference, v: NodeSpec) -> Seq<
    (TypeReference, NodeSpec),
> {
    let i = store_index(store, k);
    if i >= 0 {
        store.update(i, (k, v))
    } else {
        store.push((k, v))
    }
}

/// The index of the last field named `name`, or -1.
pub open spec fn field_index(fs: Seq<FieldSpec>, name: Seq<char>) -> int
    decreases fs.len(),
{
    if fs.len() == 0 {
        -1
    } else if fs.last().name == name {
        fs.len() - 1
    } else {
        field_index(fs.drop_last(), name)
    }
}

/// The fields after setting field `f`: a field of the same name is replaced, otherwise `f` is
/// added.
pub open spec fn fields_insert(fs: Seq<FieldSpec>, f: FieldSpec) -> Seq<FieldSpec> {
    let i = field_index(fs, f.name);
    if i >= 0 {
        fs.update(i, f)
    } else {
        fs.push(f)
    }
}

/// Whether any constraint is a `fields` constraint.
pub open spec fn has_fields(cs: Seq<ConstraintSpec>) -> bool {
    exists|i: int| 0 <= i < cs.len() && cs[i] is Fields
}

/// Whether any constraint is an `element` constraint.
pub open spec fn has_element(cs: Seq<ConstraintSpec>) -> bool {
    exists|i: int| 0 <= i < cs.len() && cs[i] is Element
}

/// Whether a constraint is a `type` constraint that does not name a container type.
pub open spec fn is_scalar_type_constraint(c: ConstraintSpec) -> bool {
    match c {
        ConstraintSpec::Type(r) => type_ref_name(r) != "list"@ && type_ref_name(r) != "sexp"@
            && type_ref_name(r) != "struct"@,
        _ => false,
    }
}

/// Whether the constraints contain a `type` constraint without a container type.
pub open spec fn has_scalar_type(cs: Seq<ConstraintSpec>) -> bool {
    exists|i: int| 0 <= i < cs.len() && is_scalar_type_constraint(cs[i])
}

/// The name of the `n`-th nested type.
pub open spec fn nested_type_name(n: nat) -> Seq<char> {
    "NestedType"@ + decimal(n)
}

/// The type reference for a field or element of type `t`, with the given presence.
pub open spec fn with_presence<L: Language>(t: TypeReference, presence: FieldPresence) -> TypeReference {
    if presence == FieldPresence::Optional {
        L::spec_target_type_as_optional(t)
    } else {
        t
    }
}

/// The type reference for a reference to the named type `name`.
pub open spec fn named_reference<L: Language>(name: Seq<char>, presence: FieldPresence) -> Outcome<Option<TypeReference>> {
    if schema_ty_name_unsupported(name) {
        Outcome::Stopped
    } else {
        match L::spec_target_type(schema_type_of_name(name)) {
            Some(t) => Outcome::Done(Some(with_presence::<L>(named_type(seq![t]), presence))),
            None => Outcome::Done(None),
        }
    }
}

/// The sequence type that a `type` constraint's type reference names, if it names one.
pub open spec fn sequence_type_of(r: TypeRefSpec) -> Option<SequenceType> {
    if type_ref_name(r) == "sexp"@ {
        Some(SequenceType::SExp)
    } else if type_ref_name(r) == "list"@ {
        Some(SequenceType::List)
    } else {
        None
    }
}

/// Builds the abstract data type of the type definition `t` in the namespace of `g`: a
/// structure for a type with `fields`, a sequence for a type with `element`, a scalar for a type
/// with a `type` constraint that names no container type; only nested sequences and scalars are
/// without a name of their own.
pub open spec fn adt_step<L: Language>(g: GenState, ctx: Seq<NodeSpec>, t: TypeSpec, is_nested: bool) -> Step<AdtSpec>
    decreases t, 1nat,
{
    let cs = t.constraints;
    if has_fields(cs) {
        structure_step::<L>(g, ctx, t)
    } else if has_element(cs) {
        if is_nested {
            sequence_step::<L>(g, ctx, t)
        } else {
            wrapped_sequence_step::<L>(g, ctx, t)
        }
    } else if has_scalar_type(cs) {
        if is_nested {
            scalar_step::<L>(g, ctx, t)
        } else {
            wrapped_scalar_step::<L>(g, ctx, t)
        }
    } else {
        step(Outcome::Stopped, g, ctx)
    }
}

/// Converts a type definition named `name` to a data model node.
pub open spec fn convert<L: Language>(
    g: GenState,
    name: Seq<char>,
    presence: FieldPresence,
    t: TypeSpec,
    ctx: Seq<NodeSpec>,
    is_nested: bool,
) -> Step<NodeSpec>
    decreases t, 2nat,
{
    let g1 = GenState { namespace: g.namespace.push(upper_camel_case(name)), ..g };
    let built = adt_step::<L>(g1, ctx, t, is_nested);
    match built.outcome {
        Outcome::Done(adt) => {
            let node = NodeSpec {
                name: upper_camel_case(name),
                code_gen_type: Some(adt),
                nested_types: built.nested,
            };
            let g2 = GenState {
                store: store_insert(built.state.store, adt_type_ref::<L>(adt), node),
                ..built.state
            };
            step(Outcome::Done(node), g2, built.nested)
        },
        Outcome::Failed(e) => step(Outcome::Failed(e), built.state, built.nested),
        Outcome::Stopped => step(Outcome::Stopped, built.state, built.nested),
    }
}

/// The namespace after removing its last part, as `Vec::pop` does (an empty namespace stays empty).
pub open spec fn pop_namespace(ns: Seq<Seq<char>>) -> Seq<Seq<char>> {
    if ns.len() == 0 {
        ns
    } else {
        ns.drop_last()
    }
}

pub open spec fn undetermined_model_text() -> Seq<char> {
    "Can not determine fully qualified name for the data model"@
}

/// Generates a nested type named `name` and adds it to the nested types `ctx`; the outcome is
/// the type reference to it.
pub open spec fn nested_step<L: Language>(
    g: GenState,
    name: Seq<char>,
    t: TypeSpec,
    presence: FieldPresence,
    ctx: Seq<NodeSpec>,
) -> Step<TypeReference>
    decreases t, 3nat,
{
    let c = convert::<L>(g, name, presence, t, Seq::empty(), true);
    match c.outcome {
        Outcome::Done(node) => {
            let g1 = GenState { namespace: pop_namespace(c.state.namespace), ..c.state };
            match node.code_gen_type {
                Some(adt) => step(Outcome::Done(with_presence::<L>(adt_type_ref::<L>(adt), presence)), g1, ctx.push(node)),
                None => step(Outcome::Failed(invalid(undetermined_model_text())), g1, ctx.push(node)),
            }
        },
        Outcome::Failed(e) => step(Outcome::Failed(e), c.state, ctx),
        Outcome::Stopped => step(Outcome::Stopped, c.state, ctx),
    }
}

/// The type reference that a type reference of a constraint resolves to, if any.
pub open spec fn reference_step<L: Language>(
    g: GenState,
    r: TypeRefSpec,
    presence: FieldPresence,
    ctx: Seq<NodeSpec>,
) -> Step<Option<TypeReference>>
    decreases r, 0nat,
{
    match r {
        TypeRefSpec::Named(n) => step(named_reference::<L>(n, presence), g, ctx),
        TypeRefSpec::TypeImport(_) => step(Outcome::Stopped, g, ctx),
        TypeRefSpec::Anonymous(def) => {
            if g.counter + 1 > usize::MAX {
                step(Outcome::Stopped, g, ctx)
            } else {
                let g1 = GenState { counter: g.counter + 1, ..g };
                let s = nested_step::<L>(g1, nested_type_name(g.counter + 1), def, presence, ctx);
                match s.outcome {
                    Outcome::Done(t) => step(Outcome::Done(Some(t)), s.state, s.nested),
                    Outcome::Failed(e) => step(Outcome::Failed(e), s.state, s.nested),
                    Outcome::Stopped => step(Outcome::Stopped, s.state, s.nested),
                }
            }
        },
    }
}

/// The error text for a second constraint of the kind `kind`.
pub open spec fn multiple_constraints_text(kind: Seq<char>) -> Seq<char> {
    "Multiple `"@ + kind
        + "` constraints in the type definitions are not supported in code generation as it can lead to conflicting types."@
}

/// Resolves the type reference of a constraint of the kind `kind`, which must resolve to a type
/// and must be the first constraint of its kind (`found` tells whether one came before).
pub open spec fn unique_reference_step<L: Language>(
    g: GenState,
    found: bool,
    kind: Seq<char>,
    r: TypeRefSpec,
    presence: FieldPresence,
    ctx: Seq<NodeSpec>,
) -> Step<TypeReference>
    decreases r, 2nat,
{
    if found {
        step(Outcome::Failed(invalid(multiple_constraints_text(kind))), g, ctx)
    } else {
        required_reference_step::<L>(g, r, presence, ctx)
    }
}

/// Resolves a required type reference, which must resolve to a type.
pub open spec fn required_reference_step<L: Language>(
    g: GenState,
    r: TypeRefSpec,
    presence: FieldPresence,
    ctx: Seq<NodeSpec>,
) -> Step<TypeReference>
    decreases r, 1nat,
{
    let s = reference_step::<L>(g, r, presence, ctx);
    match s.outcome {
        Outcome::Done(Some(t)) => step(Outcome::Done(t), s.state, s.nested),
        Outcome::Done(None) => step(Outcome::Failed(invalid(undetermined_type_text(type_ref_name(r)))), s.state, s.nested),
        Outcome::Failed(e) => step(Outcome::Failed(e), s.state, s.nested),
        Outcome::Stopped => step(Outcome::Stopped, s.state, s.nested),
    }
}

/// The presence of a field that may occur between `min` and `max` times.
pub open spec fn presence_of(min: usize, max: usize) -> Option<FieldPresence> {
    if min == 0 && max == 1 {
        Some(FieldPresence::Optional)
    } else if min == 1 && max == 1 {
        Some(FieldPresence::Required)
    } else {
        None
    }
}

/// Resolves the fields of a `fields` constraint, in order, into `acc`.
pub open spec fn fields_step<L: Language>(
    g: GenState,
    fs: Seq<IslFieldSpec>,
    ctx: Seq<NodeSpec>,
    acc: Seq<FieldSpec>,
) -> Step<Seq<FieldSpec>>
    decreases fs, 0nat,
{
    if fs.len() == 0 {
        step(Outcome::Done(acc), g, ctx)
    } else {
        let f = fs[0];
        match presence_of(f.occurs_min, f.occurs_max) {
            None => step(Outcome::Failed(invalid(occurs_range_text())), g, ctx),
            Some(presence) => {
                let s = reference_step::<L>(g, f.type_ref, presence, ctx);
                match s.outcome {
                    Outcome::Done(Some(t)) => fields_step::<L>(
                        s.state,
                        fs.subrange(1, fs.len() as int),
                        s.nested,
                        fields_insert(acc, FieldSpec { name: f.name, type_ref: t, presence }),
                    ),
                    Outcome::Done(None) => step(Outcome::Failed(invalid(unnamed_field_type_text())), s.state, s.nested),
                    Outcome::Failed(e) => step(Outcome::Failed(e), s.state, s.nested),
                    Outcome::Stopped => step(Outcome::Stopped, s.state, s.nested),
                }
            },
        }
    }
}

/// The parts of a structure collected from its constraints so far.
pub struct StructureParts {
    pub fields: Option<Seq<FieldSpec>>,
    pub is_closed: Option<bool>,
}

/// Collects the parts of a structure from the constraints `cs`, in order.
pub open spec fn structure_parts_step<L: Language>(
    g: GenState,
    cs: Seq<ConstraintSpec>,
    ctx: Seq<NodeSpec>,
    acc: StructureParts,
) -> Step<StructureParts>
    decreases cs, 0nat,
{
    if cs.len() == 0 {
        step(Outcome::Done(acc), g, ctx)
    } else {
        let rest = cs.subrange(1, cs.len() as int);
        match cs[0] {
            ConstraintSpec::Fields(fs, closed) => {
                let s = fields_step::<L>(g, fs, ctx, Seq::empty());
                match s.outcome {
                    Outcome::Done(fields) => structure_parts_step::<L>(
                        s.state,
                        rest,
                        s.nested,
                        StructureParts { fields: Some(fields), is_closed: Some(closed) },
                    ),
                    Outcome::Failed(e) => step(Outcome::Failed(e), s.state, s.nested),
                    Outcome::Stopped => step(Outcome::Stopped, s.state, s.nested),
                }
            },
            ConstraintSpec::Type(_) => structure_parts_step::<L>(
                g,
                rest,
                ctx,
                StructureParts { is_closed: Some(false), ..acc },
            ),
            _ => step(Outcome::Failed(invalid(conflicting_constraints_text())), g, ctx),
        }
    }
}

/// Builds a structure named by the current namespace from the constraints of `t`.
pub open spec fn structure_step<L: Language>(g: GenState, ctx: Seq<NodeSpec>, t: TypeSpec) -> Step<
    AdtSpec,
>
    decreases t, 0nat,
{
    let s = structure_parts_step::<L>(g, t.constraints, ctx, StructureParts { fields: None, is_closed: None });
    match s.outcome {
        Outcome::Done(parts) => match (parts.is_closed, parts.fields) {
            (Some(closed), Some(fields)) => step(
                Outcome::Done(AdtSpec::Structure {
                    name: g.namespace,
                    doc_comment: None,
                    is_closed: closed,
                    fields,
                    source: t,
                }),
                s.state,
                s.nested,
            ),
            (None, _) => step(Outcome::Failed(CodeGenErrorSpec::DataModelBuilderError(uninitialized_field_text("is_closed"@))), s.state, s.nested),
            (_, None) => step(Outcome::Failed(CodeGenErrorSpec::DataModelBuilderError(uninitialized_field_text("fields"@))), s.state, s.nested),
        },
        Outcome::Failed(e) => step(Outcome::Failed(e), s.state, s.nested),
        Outcome::Stopped => step(Outcome::Stopped, s.state, s.nested),
    }
}

/// Finds the base type of a scalar from the constraints `cs`, in order; `container_length`
/// constraints are ignored when `allow_length` holds.
pub open spec fn scalar_base_step<L: Language>(
    g: GenState,
    cs: Seq<ConstraintSpec>,
    ctx: Seq<NodeSpec>,
    allow_length: bool,
    acc: Option<TypeReference>,
) -> Step<Option<TypeReference>>
    decreases cs, 0nat,
{
    if cs.len() == 0 {
        step(Outcome::Done(acc), g, ctx)
    } else {
        let rest = cs.subrange(1, cs.len() as int);
        match cs[0] {
            ConstraintSpec::Type(r) => {
                let s = unique_reference_step::<L>(g, acc is Some, "type"@, r, FieldPresence::Required, ctx);
                match s.outcome {
                    Outcome::Done(t) => scalar_base_step::<L>(s.state, rest, s.nested, allow_length, Some(t)),
                    Outcome::Failed(e) => step(Outcome::Failed(e), s.state, s.nested),
                    Outcome::Stopped => step(Outcome::Stopped, s.state, s.nested),
                }
            },
            ConstraintSpec::ContainerLength(_, _) => if allow_length {
                scalar_base_step::<L>(g, rest, ctx, allow_length, acc)
            } else {
                step(Outcome::Failed(invalid(conflicting_constraints_text())), g, ctx)
            },
            _ => step(Outcome::Failed(invalid(conflicting_constraints_text())), g, ctx),
        }
    }
}

/// Builds a scalar with a name of its own (the current namespace) from the constraints of `t`.
pub open spec fn wrapped_scalar_step<L: Language>(g: GenState, ctx: Seq<NodeSpec>, t: TypeSpec) -> Step<
    AdtSpec,
>
    decreases t, 0nat,
{
    let s = scalar_base_step::<L>(g, t.constraints, ctx, true, None);
    match s.outcome {
        Outcome::Done(Some(base)) => step(
            Outcome::Done(AdtSpec::WrappedScalar { name: g.namespace, base_type: base, doc_comment: None, source: t }),
            s.state,
            s.nested,
        ),
        Outcome::Done(None) => step(Outcome::Failed(CodeGenErrorSpec::DataModelBuilderError(uninitialized_field_text("base_type"@))), s.state, s.nested),
        Outcome::Failed(e) => step(Outcome::Failed(e), s.state, s.nested),
        Outcome::Stopped => step(Outcome::Stopped, s.state, s.nested),
    }
}

/// Builds a nested scalar from the constraints of `t`.
pub open spec fn scalar_step<L: Language>(g: GenState, ctx: Seq<NodeSpec>, t: TypeSpec) -> Step<AdtSpec>
    decreases t, 0nat,
{
    let s = scalar_base_step::<L>(g, t.constraints, ctx, false, None);
    match s.outcome {
        Outcome::Done(Some(base)) => step(
            Outcome::Done(AdtSpec::Scalar { base_type: base, doc_comment: None, source: t }),
            s.state,
            s.nested,
        ),
        Outcome::Done(None) => step(Outcome::Failed(CodeGenErrorSpec::DataModelBuilderError(uninitialized_field_text("base_type"@))), s.state, s.nested),
        Outcome::Failed(e) => step(Outcome::Failed(e), s.state, s.nested),
        Outcome::Stopped => step(Outcome::Stopped, s.state, s.nested),
    }
}

/// The parts of a sequence collected from its constraints so far: the element type, the
/// sequence type, and whether a `type` constraint was found.
pub struct SequenceParts {
    pub element_type: Option<TypeReference>,
    pub sequence_type: Option<SequenceType>,
    pub found_type: bool,
}

/// Collects the parts of a sequence from the constraints `cs`, in order. `wrapped` selects the
/// rules of a sequence with a name of its own, which allow a single `element` and a single
/// `type` constraint.
pub open spec fn sequence_parts_step<L: Language>(
    g: GenState,
    cs: Seq<ConstraintSpec>,
    ctx: Seq<NodeSpec>,
    wrapped: bool,
    acc: SequenceParts,
) -> Step<SequenceParts>
    decreases cs, 0nat,
{
    if cs.len() == 0 {
        step(Outcome::Done(acc), g, ctx)
    } else {
        let rest = cs.subrange(1, cs.len() as int);
        match cs[0] {
            ConstraintSpec::Element(r, _) => {
                let s = if wrapped {
                    unique_reference_step::<L>(g, acc.element_type is Some, "type"@, r, FieldPresence::Required, ctx)
                } else {
                    required_reference_step::<L>(g, r, FieldPresence::Required, ctx)
                };
                match s.outcome {
                    Outcome::Done(t) => sequence_parts_step::<L>(
                        s.state,
                        rest,
                        s.nested,
                        wrapped,
                        SequenceParts { element_type: Some(t), ..acc },
                    ),
                    Outcome::Failed(e) => step(Outcome::Failed(e), s.state, s.nested),
                    Outcome::Stopped => step(Outcome::Stopped, s.state, s.nested),
                }
            },
            ConstraintSpec::Type(r) => {
                if wrapped && acc.found_type {
                    step(Outcome::Failed(invalid(multiple_constraints_text("type"@))), g, ctx)
                } else {
                    let seq_type = match sequence_type_of(r) {
                        Some(st) => Some(st),
                        None => acc.sequence_type,
                    };
                    sequence_parts_step::<L>(
                        g,
                        rest,
                        ctx,
                        wrapped,
                        SequenceParts { sequence_type: seq_type, found_type: true, ..acc },
                    )
                }
            },
            ConstraintSpec::ContainerLength(_, _) => sequence_parts_step::<L>(g, rest, ctx, wrapped, acc),
            _ => step(Outcome::Failed(invalid(conflicting_constraints_text())), g, ctx),
        }
    }
}

pub open spec fn empty_sequence_parts() -> SequenceParts {
    SequenceParts { element_type: None, sequence_type: None, found_type: false }
}

/// Builds a sequence with a name of its own (the current namespace) from the constraints of `t`.
pub open spec fn wrapped_sequence_step<L: Language>(g: GenState, ctx: Seq<NodeSpec>, t: TypeSpec) -> Step<
    AdtSpec,
>
    decreases t, 0nat,
{
    let s = sequence_parts_step::<L>(g, t.constraints, ctx, true, empty_sequence_parts());
    match s.outcome {
        Outcome::Done(parts) => match (parts.element_type, parts.sequence_type) {
            (Some(e), Some(st)) => step(
                Outcome::Done(AdtSpec::WrappedSequence {
                    name: g.namespace,
                    doc_comment: None,
                    element_type: e,
                    sequence_type: st,
                    source: t,
                }),
                s.state,
                s.nested,
            ),
            (None, _) => step(Outcome::Failed(CodeGenErrorSpec::DataModelBuilderError(uninitialized_field_text("element_type"@))), s.state, s.nested),
            (_, None) => step(Outcome::Failed(CodeGenErrorSpec::DataModelBuilderError(uninitialized_field_text("sequence_type"@))), s.state, s.nested),
        },
        Outcome::Failed(e) => step(Outcome::Failed(e), s.state, s.nested),
        Outcome::Stopped => step(Outcome::Stopped, s.state, s.nested),
    }
}

/// Builds a nested sequence from the constraints of `t`.
pub open spec fn sequence_step<L: Language>(g: GenState, ctx: Seq<NodeSpec>, t: TypeSpec) -> Step<AdtSpec>
    decreases t, 0nat,
{
    let s = sequence_parts_step::<L>(g, t.constraints, ctx, false, empty_sequence_parts());
    match s.outcome {
        Outcome::Done(parts) => match (parts.element_type, parts.sequence_type) {
            (Some(e), Some(st)) => step(
                Outcome::Done(AdtSpec::Sequence { doc_comment: None, element_type: e, sequence_type: st, source: t }),
                s.state,
                s.nested,
            ),
            (None, _) => step(Outcome::Failed(CodeGenErrorSpec::DataModelBuilderError(uninitialized_field_text("element_type"@))), s.state, s.nested),
            (_, None) => step(Outcome::Failed(CodeGenErrorSpec::DataModelBuilderError(uninitialized_field_text("sequence_type"@))), s.state, s.nested),
        },
        Outcome::Failed(e) => step(Outcome::Failed(e), s.state, s.nested),
        Outcome::Stopped => step(Outcome::Stopped, s.state, s.nested),
    }
}

/// The outcome of generating the top-level type definitions `types` after `done` were
/// generated already.
pub open spec fn after_generated(done: Seq<NodeSpec>, rest: Outcome<Seq<NodeSpec>>) -> Outcome<Seq<NodeSpec>> {
    match rest {
        Outcome::Done(ns) => Outcome::Done(done + ns),
        Outcome::Failed(e) => Outcome::Failed(e),
        Outcome::Stopped => Outcome::Stopped,
    }
}

/// Generates the data models of the top-level type definitions `types`, in order: each one,
/// which must have a name, is converted as a top-level type in a context of its own, and its
/// name then leaves the namespace again.
pub open spec fn generate_all<L: Language>(g: GenState, types: Seq<TypeSpec>) -> (Outcome<Seq<NodeSpec>>, GenState)
    decreases types.len(),
{
    if types.len() == 0 {
        (Outcome::Done(Seq::empty()), g)
    } else {
        match types[0].name {
            None => (Outcome::Stopped, g),
            Some(name) => {
                let c = convert::<L>(g, name, FieldPresence::Required, types[0], Seq::empty(), false);
                match c.outcome {
                    Outcome::Done(node) => {
                        let g1 = GenState { namespace: pop_namespace(c.state.namespace), ..c.state };
                        let (rest, g2) = generate_all::<L>(g1, types.drop_first());
                        (after_generated(seq![node], rest), g2)
                    },
                    Outcome::Failed(e) => (Outcome::Failed(e), c.state),
                    Outcome::Stopped => (Outcome::Stopped, c.state),
                }
            },
        }
    }
}

} // verus!
