//! The abstract data types of the `beta generate` command, and how it reconciles the data type
//! that each constraint of a type definition calls for with the one found so far.
use vstd::prelude::*;

use crate::codegen::generator::{generated_matches, Generated};
use crate::codegen::isl::{isl_fields_view, type_ref_name, ConstraintSpec, IslConstraint, IslFieldSpec, IslType, IslTypeRef, TypeRefSpec, TypeSpec};
use crate::codegen::result::{CodeGenError, CodeGenErrorSpec};
use crate::codegen::spec::{nested_type_name, Outcome};
use crate::codegen::utils::{
    is_unsupported_type_name, java_wrapper_class, schema_ty_name_unsupported, schema_type_of_name, to_upper_camel_case,
    upper_camel_case, IonSchemaType, JavaLanguage, Language,
};
use crate::text::{copy_string, str_contains, str_equals, text_contains, usize_to_string};
use core::marker::PhantomData;

verus! {

/// The kind of an Ion sequence.
#[derive(Clone, Copy, Debug, PartialEq, Eq, Structural)]
pub enum SequenceType {
    List,
    SExp,
}

/// A target-language-agnostic data type that determines which template to use: a single
/// value, a sequence of elements of a type (unknown while only a `type` constraint gave it), or
/// a structure whose content is closed or not.
#[derive(Debug)]
pub enum AbstractDataType {
    Value,
    Sequence { element_type: Option<String>, sequence_type: Option<SequenceType> },
    Structure(bool),
}

/// The value of an [`AbstractDataType`].
pub enum AdtSpec {
    Value,
    Sequence { element_type: Option<Seq<char>>, sequence_type: Option<SequenceType> },
    Structure(bool),
}

pub open spec fn opt_chars(s: Option<String>) -> Option<Seq<char>> {
    match s {
        Some(s) => Some(s@),
        None => None,
    }
}

impl View for AbstractDataType {
    type V = AdtSpec;

    open spec fn view(&self) -> AdtSpec {
        match self {
            AbstractDataType::Value => AdtSpec::Value,
            AbstractDataType::Sequence { element_type, sequence_type } => AdtSpec::Sequence {
                element_type: opt_chars(*element_type),
                sequence_type: *sequence_type,
            },
            AbstractDataType::Structure(closed) => AdtSpec::Structure(*closed),
        }
    }
}

/// How an abstract data type reads in messages.
pub open spec fn adt_text(a: AdtSpec) -> Seq<char> {
    match a {
        AdtSpec::Value => "single value struct"@,
        AdtSpec::Sequence { .. } => "sequence value struct"@,
        AdtSpec::Structure(_) => "struct"@,
    }
}

fn copy_opt_string(s: &Option<String>) -> (r: Option<String>)
    ensures
        opt_chars(r) == opt_chars(*s),
{
    match s {
        Some(t) => Some(copy_string(t)),
        None => None,
    }
}

fn opt_strings_equal(a: &Option<String>, b: &Option<String>) -> (r: bool)
    ensures
        r == (opt_chars(*a) == opt_chars(*b)),
{
    match (a, b) {
        (Some(x), Some(y)) => str_equals(x.as_str(), y.as_str()),
        (None, None) => true,
        _ => false,
    }
}

impl AbstractDataType {
    /// A copy of this data type.
    pub fn copy(&self) -> (r: AbstractDataType)
        ensures
            r@ == self@,
    {
        match self {
            AbstractDataType::Value => AbstractDataType::Value,
            AbstractDataType::Sequence { element_type, sequence_type } => AbstractDataType::Sequence {
                element_type: copy_opt_string(element_type),
                sequence_type: *sequence_type,
            },
            AbstractDataType::Structure(closed) => AbstractDataType::Structure(*closed),
        }
    }

    /// Whether this data type is `other`.
    pub fn same_as(&self, other: &AbstractDataType) -> (r: bool)
        ensures
            r == (self@ == other@),
    {
        match (self, other) {
            (AbstractDataType::Value, AbstractDataType::Value) => true,
            (
                AbstractDataType::Sequence { element_type: e1, sequence_type: s1 },
                AbstractDataType::Sequence { element_type: e2, sequence_type: s2 },
            ) => opt_strings_equal(e1, e2) && *s1 == *s2,
            (AbstractDataType::Structure(c1), AbstractDataType::Structure(c2)) => *c1 == *c2,
            _ => false,
        }
    }

    /// How this data type reads in messages.
    pub fn text(&self) -> (r: &'static str)
        ensures
            r@ == adt_text(self@),
    {
        match self {
            AbstractDataType::Value => "single value struct",
            AbstractDataType::Sequence { .. } => "sequence value struct",
            AbstractDataType::Structure(_) => "struct",
        }
    }
}

/// A field that the templates fill in: its name, the name of its type (`None` for an open-ended
/// type), the name of its ISL type, and the data type of a nested sequence or value it holds.
#[derive(Debug)]
pub struct Field {
    pub name: String,
    pub value_type: Option<String>,
    pub isl_type_name: String,
    pub abstract_data_type: Option<AbstractDataType>,
}

/// The value of a [`Field`].
pub struct FieldSpec {
    pub name: Seq<char>,
    pub value_type: Option<Seq<char>>,
    pub isl_type_name: Seq<char>,
    pub abstract_data_type: Option<AdtSpec>,
}

impl View for Field {
    type V = FieldSpec;

    open spec fn view(&self) -> FieldSpec {
        FieldSpec {
            name: self.name@,
            value_type: opt_chars(self.value_type),
            isl_type_name: self.isl_type_name@,
            abstract_data_type: match self.abstract_data_type {
                Some(a) => Some(a@),
                None => None,
            },
        }
    }
}

pub open spec fn fields_view(fs: Seq<Field>) -> Seq<FieldSpec> {
    fs.map_values(|f: Field| f@)
}

/// What the type definition being generated has been mapped to so far: no data type until a
/// constraint calls for one.
#[derive(Debug)]
pub struct CodeGenContext {
    pub abstract_data_type: Option<AbstractDataType>,
}

pub open spec fn opt_adt(a: Option<AbstractDataType>) -> Option<AdtSpec> {
    match a {
        Some(a) => Some(a@),
        None => None,
    }
}

impl CodeGenContext {
    /// A context without a data type.
    pub fn new() -> (r: Self)
        ensures
            r.abstract_data_type is None,
    {
        CodeGenContext { abstract_data_type: None }
    }

    /// Sets the data type.
    pub fn with_abstract_data_type(&mut self, abstract_data_type: AbstractDataType)
        ensures
            opt_adt(final(self).abstract_data_type) == Some(abstract_data_type@),
    {
        self.abstract_data_type = Some(abstract_data_type);
    }
}

/// The fields without the last one, if there is one.
pub open spec fn pop_field(fs: Seq<FieldSpec>) -> Seq<FieldSpec> {
    if fs.len() > 0 {
        fs.drop_last()
    } else {
        fs
    }
}

/// Whether `a` is a sequence whose element type is not known.
pub open spec fn open_sequence(a: AdtSpec) -> bool {
    a matches AdtSpec::Sequence { element_type: None, .. }
}

/// The message of two constraints that call for different data types.
pub open spec fn conflict_text(current: AdtSpec, prior: AdtSpec) -> Seq<char> {
    "Can not determine abstract data type as current constraint "@ + adt_text(current)
        + " conflicts with prior constraints for "@ + adt_text(prior) + "."@
}

/// The data type and fields after a constraint that calls for `current`, when `prior` was found
/// so far with the fields `fs`; or the message of the conflict.
///
/// The first data type found is taken. A sequence whose element type is not known yet (a
/// `type: list` or `type: sexp` came first) takes the element type of a later sequence, and a
/// sequence whose element type is known takes the sequence kind of a later `type` constraint;
/// either way the field that the earlier constraint added is dropped. A structure whose first
/// field has an open type (a `type: struct` came first) takes whether its content is closed from
/// a later `fields` constraint, dropping that field. The same data type again changes nothing;
/// any other data type is a conflict.
pub open spec fn reconciled(prior: Option<AdtSpec>, fs: Seq<FieldSpec>, current: AdtSpec) -> Result<
    (AdtSpec, Seq<FieldSpec>),
    Seq<char>,
> {
    match prior {
        None => Ok((current, fs)),
        Some(p) => if p != current && open_sequence(p) && current is Sequence {
            Ok(
                (
                    AdtSpec::Sequence { element_type: current->element_type, sequence_type: p->sequence_type },
                    pop_field(fs),
                ),
            )
        } else if p != current && p is Sequence && open_sequence(current) {
            Ok(
                (
                    AdtSpec::Sequence { element_type: p->element_type, sequence_type: current->sequence_type },
                    pop_field(fs),
                ),
            )
        } else if p is Structure && fs.len() > 0 && fs[0].value_type is None && current is Structure {
            Ok((AdtSpec::Structure(current->Structure_0), pop_field(fs)))
        } else if p != current {
            Err(conflict_text(current, p))
        } else {
            Ok((p, fs))
        },
    }
}

/// Checks that the data type `current` that a constraint calls for agrees with the one found so
/// far in `code_gen_context`, and updates it and the fields as `reconciled` says. On a conflict
/// nothing changes and the error describes both data types.
pub fn verify_and_update_abstract_data_type(
    current_abstract_data_type: AbstractDataType,
    tera_fields: &mut Vec<Field>,
    code_gen_context: &mut CodeGenContext,
) -> (r: Result<(), CodeGenError>)
    ensures
        match reconciled(
            opt_adt(old(code_gen_context).abstract_data_type),
            fields_view(old(tera_fields)@),
            current_abstract_data_type@,
        ) {
            Ok((a, fs)) => {
                &&& r is Ok
                &&& opt_adt(final(code_gen_context).abstract_data_type) == Some(a)
                &&& fields_view(final(tera_fields)@) == fs
            },
            Err(msg) => {
                &&& r matches Err(e) && e@ == CodeGenErrorSpec::InvalidDataModel(msg)
                &&& opt_adt(final(code_gen_context).abstract_data_type) == opt_adt(
                    old(code_gen_context).abstract_data_type,
                )
                &&& fields_view(final(tera_fields)@) == fields_view(old(tera_fields)@)
            },
        },
{
    let ghost old_fields = fields_view(tera_fields@);
    let prior = match &code_gen_context.abstract_data_type {
        None => {
            code_gen_context.with_abstract_data_type(current_abstract_data_type);
            return Ok(());
        },
        Some(p) => p.copy(),
    };
    let differ = !prior.same_as(&current_abstract_data_type);
    match (&prior, &current_abstract_data_type) {
        (
            AbstractDataType::Sequence { element_type: None, sequence_type },
            AbstractDataType::Sequence { element_type: current_element, .. },
        ) if differ => {
            let next = AbstractDataType::Sequence {
                element_type: copy_opt_string(current_element),
                sequence_type: *sequence_type,
            };
            tera_fields.pop();
            proof {
                assert(fields_view(tera_fields@) =~= pop_field(old_fields));
            }
            code_gen_context.with_abstract_data_type(next);
            return Ok(());
        },
        (
            AbstractDataType::Sequence { element_type: prior_element, .. },
            AbstractDataType::Sequence { element_type: None, sequence_type },
        ) if differ => {
            let next = AbstractDataType::Sequence {
                element_type: copy_opt_string(prior_element),
                sequence_type: *sequence_type,
            };
            tera_fields.pop();
            proof {
                assert(fields_view(tera_fields@) =~= pop_field(old_fields));
            }
            code_gen_context.with_abstract_data_type(next);
            return Ok(());
        },
        _ => {},
    }
    if let (AbstractDataType::Structure(_), AbstractDataType::Structure(closed)) = (
        &prior,
        &current_abstract_data_type,
    ) {
        if tera_fields.len() > 0 && tera_fields[0].value_type.is_none() {
            let next = AbstractDataType::Structure(*closed);
            tera_fields.pop();
            proof {
                assert(fields_view(tera_fields@) =~= pop_field(old_fields));
            }
            code_gen_context.with_abstract_data_type(next);
            return Ok(());
        }
    }
    if differ {
        let mut message = String::from_str("Can not determine abstract data type as current constraint ");
        message.append(current_abstract_data_type.text());
        message.append(" conflicts with prior constraints for ");
        message.append(prior.text());
        message.append(".");
        return Err(CodeGenError::InvalidDataModel { description: message });
    }
    Ok(())
}

/// A type defined inline in the type being generated, which the templates add to its module:
/// its name, fields, data type and the types nested in it in turn.
#[derive(Debug)]
pub struct NestedType {
    pub target_kind_name: String,
    pub fields: Vec<Field>,
    pub abstract_data_type: AbstractDataType,
    pub nested_types: Vec<NestedType>,
}

/// The value of a [`NestedType`].
pub struct NestedSpec {
    pub target_kind_name: Seq<char>,
    pub fields: Seq<FieldSpec>,
    pub abstract_data_type: AdtSpec,
    pub nested_types: Seq<NestedSpec>,
}

pub open spec fn nested_type_view(n: NestedType) -> NestedSpec
    decreases n,
{
    NestedSpec {
        target_kind_name: n.target_kind_name@,
        fields: fields_view(n.fields@),
        abstract_data_type: n.abstract_data_type@,
        nested_types: nested_types_view(n.nested_types@),
    }
}

pub open spec fn nested_types_view(ns: Seq<NestedType>) -> Seq<NestedSpec>
    decreases ns,
{
    Seq::new(ns.len(), |i: int| if 0 <= i < ns.len() { nested_type_view(ns[i]) } else { arbitrary() })
}

impl View for NestedType {
    type V = NestedSpec;

    open spec fn view(&self) -> NestedSpec {
        nested_type_view(*self)
    }
}

/// The nested-type counter and the nested types found so far.
pub struct Nesting {
    pub counter: nat,
    pub nested: Seq<NestedSpec>,
}

/// An outcome with the counter and nested types after it.
pub struct NestingStep<T> {
    pub outcome: Outcome<T>,
    pub nesting: Nesting,
}

/// What mapping the constraints of a type definition has found so far: the counter, the nested
/// types, the fields and the data type.
pub struct MapState {
    pub counter: nat,
    pub nested: Seq<NestedSpec>,
    pub fields: Seq<FieldSpec>,
    pub context: Option<AdtSpec>,
}

/// An outcome with the state after it.
pub struct MapStep {
    pub outcome: Outcome<()>,
    pub state: MapState,
}

pub open spec fn map_step(outcome: Outcome<()>, state: MapState) -> MapStep {
    MapStep { outcome, state }
}

pub open spec fn nesting_of(s: MapState) -> Nesting {
    Nesting { counter: s.counter, nested: s.nested }
}

pub open spec fn with_nesting(s: MapState, n: Nesting) -> MapState {
    MapState { counter: n.counter, nested: n.nested, ..s }
}

pub open spec fn invalid_adt(text: Seq<char>) -> CodeGenErrorSpec {
    CodeGenErrorSpec::InvalidDataModel(text)
}

/// The message of a type definition whose constraints call for no data type.
pub open spec fn undetermined_adt_text() -> Seq<char> {
    "Can not determine abstract data type, specified constraints do not map to an abstract data type."@
}

/// The name of a sequence of the target type `t` in the language `L`: a Java `ArrayList` of the
/// wrapper class of a primitive type, or a Rust `Vec`.
pub open spec fn sequence_name<L: Language>(t: Option<Seq<char>>) -> Option<Seq<char>> {
    match t {
        Some(n) => Some(
            if L::spec_name() == "java"@ {
                "ArrayList<"@ + match java_wrapper_class(n) {
                    Some(w) => w,
                    None => n,
                } + ">"@
            } else {
                "Vec<"@ + n + ">"@
            },
        ),
        None => None,
    }
}

/// Whether the type named `target_name` that a constraint refers to is a nested type that is
/// folded into the current type: its name holds `NestedType` and the first nested type found is
/// a sequence or a single value.
pub open spec fn absorbs(target_name: Option<Seq<char>>, nested: Seq<NestedSpec>) -> bool {
    match target_name {
        Some(n) => text_contains(n, "NestedType"@) && nested.len() > 0 && (nested[0].abstract_data_type is Sequence
            || nested[0].abstract_data_type is Value),
        None => false,
    }
}

/// The last field of the first nested type, which a folded nested type hands over.
pub open spec fn absorbed_field(nested: Seq<NestedSpec>) -> FieldSpec {
    nested[0].fields.last()
}

/// The nested types after folding one: the first loses its last field, and the last is removed.
pub open spec fn after_absorbing(nested: Seq<NestedSpec>) -> Seq<NestedSpec> {
    nested.update(0, NestedSpec { fields: nested[0].fields.drop_last(), ..nested[0] }).drop_last()
}

pub open spec fn value_field(value_type: Option<Seq<char>>, isl_type_name: Seq<char>, adt: Option<AdtSpec>) -> FieldSpec {
    FieldSpec { name: "value"@, value_type, isl_type_name, abstract_data_type: adt }
}

/// The data type that a `type` constraint referring to `r` calls for, `target_name` being the
/// target type it resolved to.
pub open spec fn type_constraint_adt(r: TypeRefSpec, target_name: Option<Seq<char>>) -> AdtSpec {
    let n = type_ref_name(r);
    if n == "list"@ {
        AdtSpec::Sequence { element_type: target_name, sequence_type: Some(SequenceType::List) }
    } else if n == "sexp"@ {
        AdtSpec::Sequence { element_type: target_name, sequence_type: Some(SequenceType::SExp) }
    } else if n == "struct"@ {
        AdtSpec::Structure(false)
    } else {
        AdtSpec::Value
    }
}

/// Resolves the type reference `r` to the name of its target type: a named type maps through
/// the language; an inline type becomes the next nested type, generated into the nested types.
/// Imports and names that the type mapping does not support stop the generator.
pub open spec fn ref_step<L: Language>(n: Nesting, r: TypeRefSpec) -> NestingStep<Option<Seq<char>>>
    decreases r, 0nat,
{
    match r {
        TypeRefSpec::Named(name) => if schema_ty_name_unsupported(name) {
            NestingStep { outcome: Outcome::Stopped, nesting: n }
        } else {
            NestingStep { outcome: Outcome::Done(L::spec_target_type(schema_type_of_name(name))), nesting: n }
        },
        TypeRefSpec::TypeImport(_) => NestingStep { outcome: Outcome::Stopped, nesting: n },
        TypeRefSpec::Anonymous(def) => if n.counter + 1 > usize::MAX {
            NestingStep { outcome: Outcome::Stopped, nesting: n }
        } else {
            let name = nested_type_name(n.counter + 1);
            let g = nested_type_step::<L>(Nesting { counter: n.counter + 1, nested: n.nested }, name, def);
            match g.outcome {
                Outcome::Done(_) => NestingStep { outcome: Outcome::Done(Some(name)), nesting: g.nesting },
                Outcome::Failed(e) => NestingStep { outcome: Outcome::Failed(e), nesting: g.nesting },
                Outcome::Stopped => NestingStep { outcome: Outcome::Stopped, nesting: g.nesting },
            }
        },
    }
}

/// Generates the nested type `name` from the constraints of `t` and adds it to the nested types.
pub open spec fn nested_type_step<L: Language>(n: Nesting, name: Seq<char>, t: TypeSpec) -> NestingStep<()>
    decreases t, 2nat,
{
    let inner = constraints_step::<L>(
        MapState { counter: n.counter, nested: Seq::empty(), fields: Seq::empty(), context: None },
        t.constraints,
    );
    let after = Nesting { counter: inner.state.counter, nested: n.nested };
    match inner.outcome {
        Outcome::Done(_) => match inner.state.context {
            Some(a) => NestingStep {
                outcome: Outcome::Done(()),
                nesting: Nesting {
                    counter: inner.state.counter,
                    nested: n.nested.push(
                        NestedSpec {
                            target_kind_name: upper_camel_case(name),
                            fields: inner.state.fields,
                            abstract_data_type: a,
                            nested_types: inner.state.nested,
                        },
                    ),
                },
            },
            None => NestingStep { outcome: Outcome::Failed(invalid_adt(undetermined_adt_text())), nesting: after },
        },
        Outcome::Failed(e) => NestingStep { outcome: Outcome::Failed(e), nesting: after },
        Outcome::Stopped => NestingStep { outcome: Outcome::Stopped, nesting: after },
    }
}

/// Maps the constraints `cs` in order, stopping at the first that does not succeed.
pub open spec fn constraints_step<L: Language>(s: MapState, cs: Seq<ConstraintSpec>) -> MapStep
    decreases cs, 0nat,
{
    if cs.len() == 0 {
        map_step(Outcome::Done(()), s)
    } else {
        let c = constraint_step::<L>(s, cs[0]);
        match c.outcome {
            Outcome::Done(_) => constraints_step::<L>(c.state, cs.subrange(1, cs.len() as int)),
            _ => c,
        }
    }
}

/// Maps the constraint `c` onto the data type and fields: `element` and `type` constraints add
/// a `value` field, `fields` constraints a field for each field; other constraints do nothing.
pub open spec fn constraint_step<L: Language>(s: MapState, c: ConstraintSpec) -> MapStep
    decreases c, 1nat,
{
    match c {
        ConstraintSpec::Element(r, _) => {
            let t = ref_step::<L>(nesting_of(s), r);
            match t.outcome {
                Outcome::Done(target_name) => element_step::<L>(with_nesting(s, t.nesting), r, target_name),
                Outcome::Failed(e) => map_step(Outcome::Failed(e), with_nesting(s, t.nesting)),
                Outcome::Stopped => map_step(Outcome::Stopped, with_nesting(s, t.nesting)),
            }
        },
        ConstraintSpec::Type(r) => {
            let t = ref_step::<L>(nesting_of(s), r);
            match t.outcome {
                Outcome::Done(target_name) => type_step::<L>(with_nesting(s, t.nesting), r, target_name),
                Outcome::Failed(e) => map_step(Outcome::Failed(e), with_nesting(s, t.nesting)),
                Outcome::Stopped => map_step(Outcome::Stopped, with_nesting(s, t.nesting)),
            }
        },
        ConstraintSpec::Fields(fs, closed) => match reconciled(s.context, s.fields, AdtSpec::Structure(closed)) {
            Err(m) => map_step(Outcome::Failed(invalid_adt(m)), s),
            Ok((a, f2)) => fields_step::<L>(MapState { context: Some(a), fields: f2, ..s }, fs),
        },
        _ => map_step(Outcome::Done(()), s),
    }
}

/// Adds a field for each of the fields `fs` of a `fields` constraint, in order; a folded nested
/// type hands over its field's type and data type.
pub open spec fn fields_step<L: Language>(s: MapState, fs: Seq<IslFieldSpec>) -> MapStep
    decreases fs, 0nat,
{
    if fs.len() == 0 {
        map_step(Outcome::Done(()), s)
    } else {
        let f = fs[0];
        let rest = fs.subrange(1, fs.len() as int);
        let t = ref_step::<L>(nesting_of(s), f.type_ref);
        let s1 = with_nesting(s, t.nesting);
        match t.outcome {
            Outcome::Done(target_name) => if absorbs(target_name, s1.nested) {
                if s1.nested[0].fields.len() == 0 {
                    map_step(Outcome::Stopped, s1)
                } else {
                    let g = absorbed_field(s1.nested);
                    let field = FieldSpec {
                        name: f.name,
                        value_type: g.value_type,
                        isl_type_name: g.isl_type_name,
                        abstract_data_type: Some(s1.nested[0].abstract_data_type),
                    };
                    fields_step::<L>(
                        MapState { nested: after_absorbing(s1.nested), fields: s1.fields.push(field), ..s1 },
                        rest,
                    )
                }
            } else {
                let field = FieldSpec {
                    name: f.name,
                    value_type: target_name,
                    isl_type_name: type_ref_name(f.type_ref),
                    abstract_data_type: None,
                };
                fields_step::<L>(MapState { fields: s1.fields.push(field), ..s1 }, rest)
            },
            Outcome::Failed(e) => map_step(Outcome::Failed(e), s1),
            Outcome::Stopped => map_step(Outcome::Stopped, s1),
        }
    }
}

/// An `element` constraint whose type resolved to `target_name`: the data type becomes a
/// sequence of it, and a `value` field holds the elements, typed as a sequence of the element
/// type (so `element: int` alone gives a Rust `Vec<i64>`).
pub open spec fn element_step<L: Language>(s: MapState, r: TypeRefSpec, target_name: Option<Seq<char>>) -> MapStep {
    match reconciled(s.context, s.fields, AdtSpec::Sequence { element_type: target_name, sequence_type: None }) {
        Err(m) => map_step(Outcome::Failed(invalid_adt(m)), s),
        Ok((a, fs)) => {
            let s1 = MapState { context: Some(a), fields: fs, ..s };
            if absorbs(target_name, s1.nested) {
                if s1.nested[0].fields.len() == 0 {
                    map_step(Outcome::Stopped, s1)
                } else {
                    let g = absorbed_field(s1.nested);
                    let field = value_field(
                        sequence_name::<L>(g.value_type),
                        g.isl_type_name,
                        Some(s1.nested[0].abstract_data_type),
                    );
                    let context = match s1.context {
                        Some(AdtSpec::Sequence { sequence_type, .. }) => Some(
                            AdtSpec::Sequence { element_type: g.value_type, sequence_type },
                        ),
                        other => other,
                    };
                    map_step(
                        Outcome::Done(()),
                        MapState { nested: after_absorbing(s1.nested), fields: s1.fields.push(field), context, ..s1 },
                    )
                }
            } else {
                let value_type = match s1.context {
                    Some(AdtSpec::Sequence { element_type, .. }) => sequence_name::<L>(element_type),
                    _ => None,
                };
                map_step(
                    Outcome::Done(()),
                    MapState { fields: s1.fields.push(value_field(value_type, type_ref_name(r), None)), ..s1 },
                )
            }
        },
    }
}

/// A `type` constraint whose type resolved to `target_name`: the data type is a sequence for a
/// list or s-expression, a structure for a struct, a single value otherwise.
pub open spec fn type_step<L: Language>(s: MapState, r: TypeRefSpec, target_name: Option<Seq<char>>) -> MapStep {
    match reconciled(s.context, s.fields, type_constraint_adt(r, target_name)) {
        Err(m) => map_step(Outcome::Failed(invalid_adt(m)), s),
        Ok((a, fs)) => {
            let s1 = MapState { context: Some(a), fields: fs, ..s };
            if absorbs(target_name, s1.nested) {
                if s1.nested[0].fields.len() == 0 {
                    map_step(Outcome::Stopped, s1)
                } else {
                    let g = absorbed_field(s1.nested);
                    let na = s1.nested[0].abstract_data_type;
                    let field = value_field(g.value_type, g.isl_type_name, Some(na));
                    let context = if na is Sequence {
                        Some(na)
                    } else {
                        s1.context
                    };
                    map_step(
                        Outcome::Done(()),
                        MapState { nested: after_absorbing(s1.nested), fields: s1.fields.push(field), context, ..s1 },
                    )
                }
            } else {
                let value_type = match s1.context {
                    Some(AdtSpec::Sequence { element_type, .. }) => sequence_name::<L>(element_type),
                    _ => target_name,
                };
                map_step(
                    Outcome::Done(()),
                    MapState { fields: s1.fields.push(value_field(value_type, type_ref_name(r), None)), ..s1 },
                )
            }
        },
    }
}

/// The counter and nested types held by a generator and a vector.
pub open spec fn nesting_view(counter: usize, nested: Seq<NestedType>) -> Nesting {
    Nesting { counter: counter as nat, nested: nested_types_view(nested) }
}

/// Whether a call that returned `r` and left the counter, nested types, fields and context as
/// given took the step `st`.
pub open spec fn took_step(
    r: Generated<()>,
    st: MapStep,
    counter: usize,
    nested: Seq<NestedType>,
    fields: Seq<Field>,
    context: Option<AbstractDataType>,
) -> bool {
    &&& generated_matches(r, st.outcome, |u: ()| u)
    &&& counter as nat == st.state.counter
    &&& nested_types_view(nested) == st.state.nested
    &&& fields_view(fields) == st.state.fields
    &&& opt_adt(context) == st.state.context
}

/// The name of a sequence of the target type `t` in the language `L` (see `sequence_name`).
fn sequence_name_of<L: Language>(t: &Option<String>) -> (r: Option<String>)
    ensures
        opt_chars(r) == sequence_name::<L>(opt_chars(*t)),
{
    match t {
        None => None,
        Some(n) => {
            let lang = L::name();
            if str_equals(lang.as_str(), "java") {
                let mut out = String::from_str("ArrayList<");
                match JavaLanguage::wrapper_class(n.as_str()) {
                    Some(w) => out.append(w.as_str()),
                    None => out.append(n.as_str()),
                }
                out.append(">");
                Some(out)
            } else {
                let mut out = String::from_str("Vec<");
                out.append(n.as_str());
                out.append(">");
                Some(out)
            }
        },
    }
}

/// Whether the type that `target` names is a nested type folded into the current one (see
/// `absorbs`).
fn absorbs_nested(target: &Option<String>, nested: &Vec<NestedType>) -> (r: bool)
    ensures
        r == absorbs(opt_chars(*target), nested_types_view(nested@)),
{
    match target {
        Some(n) => {
            if !str_contains(n.as_str(), "NestedType") {
                return false;
            }
            if nested.len() == 0 {
                return false;
            }
            assert(nested_types_view(nested@)[0] == nested@[0]@);
            match &nested[0].abstract_data_type {
                AbstractDataType::Sequence { .. } | AbstractDataType::Value => true,
                _ => false,
            }
        },
        None => false,
    }
}

/// Folds a nested type: takes the last field of the first nested type and that type's data
/// type, and removes the last nested type.
fn absorb(nested: &mut Vec<NestedType>) -> (r: (Field, AbstractDataType))
    requires
        old(nested)@.len() > 0,
        old(nested)@[0].fields@.len() > 0,
    ensures
        nested_types_view(final(nested)@) == after_absorbing(nested_types_view(old(nested)@)),
        r.0@ == absorbed_field(nested_types_view(old(nested)@)),
        r.1@ == nested_types_view(old(nested)@)[0].abstract_data_type,
{
    let ghost before = nested@;
    let ghost old_view = nested_types_view(nested@);
    assert(old_view[0] == before[0]@);
    let mut first = nested.remove(0);
    let ghost first_fields = first.fields@;
    let field = first.fields.pop().unwrap();
    assert(fields_view(first.fields@) =~= fields_view(first_fields).drop_last());
    let adt = first.abstract_data_type.copy();
    assert(first@ == NestedSpec { fields: old_view[0].fields.drop_last(), ..old_view[0] });
    if nested.len() > 0 {
        nested.insert(0, first);
        nested.pop();
        assert(nested_types_view(nested@) =~= after_absorbing(old_view)) by {
            assert forall|j: int| 0 <= j < nested@.len() implies nested_types_view(nested@)[j]
                == after_absorbing(old_view)[j] by {
                if j > 0 {
                    assert(nested@[j] == before[j]);
                }
            }
        }
    } else {
        assert(nested_types_view(nested@) =~= after_absorbing(old_view));
    }
    (field, adt)
}

/// The data type that a `type` constraint referring to `isl_type` calls for.
fn type_constraint_data_type(isl_type: &IslTypeRef, target: &Option<String>) -> (r: AbstractDataType)
    ensures
        r@ == type_constraint_adt(isl_type@, opt_chars(*target)),
{
    let n = isl_type.name();
    if str_equals(n.as_str(), "list") {
        AbstractDataType::Sequence { element_type: copy_opt_string(target), sequence_type: Some(SequenceType::List) }
    } else if str_equals(n.as_str(), "sexp") {
        AbstractDataType::Sequence { element_type: copy_opt_string(target), sequence_type: Some(SequenceType::SExp) }
    } else if str_equals(n.as_str(), "struct") {
        AbstractDataType::Structure(false)
    } else {
        AbstractDataType::Value
    }
}

/// Applies an `element` constraint whose type `isl_type` resolved to `target` (see
/// `element_step`).
fn apply_element<L: Language>(
    nested_types: &mut Vec<NestedType>,
    tera_fields: &mut Vec<Field>,
    isl_type: &IslTypeRef,
    target: Option<String>,
    code_gen_context: &mut CodeGenContext,
    counter: usize,
) -> (r: Generated<()>)
    ensures
        took_step(
            r,
            element_step::<L>(
                MapState {
                    counter: counter as nat,
                    nested: nested_types_view(old(nested_types)@),
                    fields: fields_view(old(tera_fields)@),
                    context: opt_adt(old(code_gen_context).abstract_data_type),
                },
                isl_type@,
                opt_chars(target),
            ),
            counter,
            final(nested_types)@,
            final(tera_fields)@,
            final(code_gen_context).abstract_data_type,
        ),
{
    let current = AbstractDataType::Sequence { element_type: copy_opt_string(&target), sequence_type: None };
    match verify_and_update_abstract_data_type(current, tera_fields, code_gen_context) {
        Err(e) => return Generated::Failed(e),
        Ok(_) => {},
    }
    if absorbs_nested(&target, nested_types) {
        if nested_types[0].fields.len() == 0 {
            assert(nested_types_view(nested_types@)[0] == nested_types@[0]@);
            return Generated::Unsupported;
        }
        assert(nested_types_view(nested_types@)[0] == nested_types@[0]@);
        let (g, na) = absorb(nested_types);
        let element = g.value_type;
        let value_type = sequence_name_of::<L>(&element);
        let ghost fields_before = tera_fields@;
        let field = Field {
            name: String::from_str("value"),
            value_type,
            isl_type_name: g.isl_type_name,
            abstract_data_type: Some(na),
        };
        tera_fields.push(field);
        assert(fields_view(tera_fields@) =~= fields_view(fields_before).push(field@));
        let next = match &code_gen_context.abstract_data_type {
            Some(AbstractDataType::Sequence { sequence_type, .. }) => Some(
                AbstractDataType::Sequence { element_type: element, sequence_type: *sequence_type },
            ),
            _ => None,
        };
        if let Some(a) = next {
            code_gen_context.abstract_data_type = Some(a);
        }
        Generated::Done(())
    } else {
        let value_type = match &code_gen_context.abstract_data_type {
            Some(AbstractDataType::Sequence { element_type, .. }) => sequence_name_of::<L>(
                element_type,
            ),
            _ => None,
        };
        let ghost fields_before = tera_fields@;
        let field = Field { name: String::from_str("value"), value_type, isl_type_name: isl_type.name(), abstract_data_type: None };
        tera_fields.push(field);
        assert(fields_view(tera_fields@) =~= fields_view(fields_before).push(field@));
        Generated::Done(())
    }
}

/// Applies a `type` constraint whose type `isl_type` resolved to `target` (see `type_step`).
fn apply_type<L: Language>(
    nested_types: &mut Vec<NestedType>,
    tera_fields: &mut Vec<Field>,
    isl_type: &IslTypeRef,
    target: Option<String>,
    code_gen_context: &mut CodeGenContext,
    counter: usize,
) -> (r: Generated<()>)
    ensures
        took_step(
            r,
            type_step::<L>(
                MapState {
                    counter: counter as nat,
                    nested: nested_types_view(old(nested_types)@),
                    fields: fields_view(old(tera_fields)@),
                    context: opt_adt(old(code_gen_context).abstract_data_type),
                },
                isl_type@,
                opt_chars(target),
            ),
            counter,
            final(nested_types)@,
            final(tera_fields)@,
            final(code_gen_context).abstract_data_type,
        ),
{
    let current = type_constraint_data_type(isl_type, &target);
    match verify_and_update_abstract_data_type(current, tera_fields, code_gen_context) {
        Err(e) => return Generated::Failed(e),
        Ok(_) => {},
    }
    if absorbs_nested(&target, nested_types) {
        if nested_types[0].fields.len() == 0 {
            assert(nested_types_view(nested_types@)[0] == nested_types@[0]@);
            return Generated::Unsupported;
        }
        assert(nested_types_view(nested_types@)[0] == nested_types@[0]@);
        let (g, na) = absorb(nested_types);
        let ghost fields_before = tera_fields@;
        let is_sequence = match &na {
            AbstractDataType::Sequence { .. } => true,
            _ => false,
        };
        let kept = na.copy();
        let field = Field {
            name: String::from_str("value"),
            value_type: g.value_type,
            isl_type_name: g.isl_type_name,
            abstract_data_type: Some(na),
        };
        tera_fields.push(field);
        assert(fields_view(tera_fields@) =~= fields_view(fields_before).push(field@));
        if is_sequence {
            code_gen_context.abstract_data_type = Some(kept);
        }
        Generated::Done(())
    } else {
        let value_type = match &code_gen_context.abstract_data_type {
            Some(AbstractDataType::Sequence { element_type, .. }) => sequence_name_of::<L>(element_type),
            _ => target,
        };
        let ghost fields_before = tera_fields@;
        let field = Field { name: String::from_str("value"), value_type, isl_type_name: isl_type.name(), abstract_data_type: None };
        tera_fields.push(field);
        assert(fields_view(tera_fields@) =~= fields_view(fields_before).push(field@));
        Generated::Done(())
    }
}

/// The part of the `beta generate` code generator that maps the constraints of type definitions
/// onto data types and fields: it counts the nested types it names.
pub struct CodeGenerator<L: Language> {
    pub nested_type_counter: usize,
    pub phantom: PhantomData<L>,
}

impl<L: Language> CodeGenerator<L> {
    /// A generator that has named no nested type yet.
    pub fn new() -> (r: Self)
        ensures
            r.nested_type_counter == 0,
    {
        CodeGenerator { nested_type_counter: 0, phantom: PhantomData }
    }

    /// Returns the name of the next nested type: `NestedType` and the counter, raised by one.
    /// The counter only grows, so successive calls never give the same name
    /// (`law_nested_type_names_differ`).
    pub fn next_nested_type_name(&mut self) -> (r: String)
        requires
            old(self).nested_type_counter < usize::MAX,
        ensures
            r@ == nested_type_name(old(self).nested_type_counter as nat + 1),
            final(self).nested_type_counter == old(self).nested_type_counter + 1,
    {
        self.nested_type_counter = self.nested_type_counter + 1;
        let mut name = String::from_str("NestedType");
        let digits = usize_to_string(self.nested_type_counter);
        name.append(digits.as_str());
        proof {
            reveal_strlit("NestedType");
        }
        name
    }

    /// Provides the name of the target type that `isl_type_ref` refers to (see `ref_step`): an
    /// inline type definition is generated as the next nested type.
    pub fn type_reference_name(&mut self, isl_type_ref: &IslTypeRef, nested_types: &mut Vec<NestedType>) -> (r:
        Generated<Option<String>>)
        ensures
            ({
                let st = ref_step::<L>(nesting_view(old(self).nested_type_counter, old(nested_types)@), isl_type_ref@);
                &&& generated_matches(r, st.outcome, |t: Option<String>| opt_chars(t))
                &&& final(self).nested_type_counter == st.nesting.counter
                &&& nested_types_view(final(nested_types)@) == st.nesting.nested
            }),
        decreases isl_type_ref, 0nat,
    {
        match isl_type_ref {
            IslTypeRef::Named(name) => {
                if is_unsupported_type_name(name.as_str()) {
                    return Generated::Unsupported;
                }
                let schema_type = IonSchemaType::from_name(name.as_str());
                Generated::Done(L::target_type(&schema_type))
            },
            IslTypeRef::TypeImport(_) => Generated::Unsupported,
            IslTypeRef::Anonymous(type_def) => {
                if self.nested_type_counter == usize::MAX {
                    return Generated::Unsupported;
                }
                let name = self.next_nested_type_name();
                match self.generate_nested_type(&name, type_def, nested_types) {
                    Generated::Done(_) => Generated::Done(Some(name)),
                    Generated::Failed(e) => Generated::Failed(e),
                    Generated::Unsupported => Generated::Unsupported,
                }
            },
        }
    }

    /// Generates a nested type named `nested_name` from the constraints of `isl_type` and adds it
    /// to `nested_types` (see `nested_type_step`).
    #[verifier::loop_isolation(false)]
    pub fn generate_nested_type(
        &mut self,
        nested_name: &String,
        isl_type: &IslType,
        nested_types: &mut Vec<NestedType>,
    ) -> (r: Generated<()>)
        ensures
            ({
                let st = nested_type_step::<L>(
                    nesting_view(old(self).nested_type_counter, old(nested_types)@),
                    nested_name@,
                    isl_type@,
                );
                &&& generated_matches(r, st.outcome, |u: ()| u)
                &&& final(self).nested_type_counter == st.nesting.counter
                &&& nested_types_view(final(nested_types)@) == st.nesting.nested
            }),
        decreases isl_type, 2nat,
    {
        let mut tera_fields: Vec<Field> = Vec::new();
        let mut code_gen_context = CodeGenContext::new();
        let mut nested_anonymous_types: Vec<NestedType> = Vec::new();
        let constraints = &isl_type.constraints;
        let ghost cs = isl_type@.constraints;
        let ghost s0 = MapState {
            counter: self.nested_type_counter as nat,
            nested: Seq::empty(),
            fields: Seq::empty(),
            context: None,
        };
        assert(nested_types_view(nested_anonymous_types@) =~= Seq::<NestedSpec>::empty());
        assert(fields_view(tera_fields@) =~= Seq::<FieldSpec>::empty());
        assert(cs.subrange(0, cs.len() as int) =~= cs);
        let mut i: usize = 0;
        while i < constraints.len()
            invariant
                cs == isl_type@.constraints,
                cs.len() == constraints@.len(),
                forall|j: int| 0 <= j < cs.len() ==> cs[j] == #[trigger] constraints@[j]@,
                i <= cs.len(),
                nested_types == old(nested_types),
                constraints_step::<L>(s0, cs) == constraints_step::<L>(
                    MapState {
                        counter: self.nested_type_counter as nat,
                        nested: nested_types_view(nested_anonymous_types@),
                        fields: fields_view(tera_fields@),
                        context: opt_adt(code_gen_context.abstract_data_type),
                    },
                    cs.subrange(i as int, cs.len() as int),
                ),
            decreases cs.len() - i,
        {
            let ghost rest = cs.subrange(i as int, cs.len() as int);
            assert(rest[0] == cs[i as int]);
            assert(rest.subrange(1, rest.len() as int) =~= cs.subrange(i + 1, cs.len() as int));
            let r = self.map_constraint_to_abstract_data_type(
                &mut nested_anonymous_types,
                &mut tera_fields,
                &isl_type.constraints[i],
                &mut code_gen_context,
            );
            match r {
                Generated::Done(_) => {},
                Generated::Failed(e) => {
                    return Generated::Failed(e);
                },
                Generated::Unsupported => {
                    return Generated::Unsupported;
                },
            }
            i = i + 1;
        }
        assert(cs.subrange(i as int, cs.len() as int).len() == 0);
        match code_gen_context.abstract_data_type {
            Some(adt) => {
                let target_kind_name = to_upper_camel_case(nested_name.as_str());
                let ghost before = nested_types@;
                let nested = NestedType {
                    target_kind_name,
                    fields: tera_fields,
                    abstract_data_type: adt,
                    nested_types: nested_anonymous_types,
                };
                nested_types.push(nested);
                assert(nested_types_view(nested_types@) =~= nested_types_view(before).push(nested@));
                Generated::Done(())
            },
            None => Generated::Failed(
                CodeGenError::InvalidDataModel {
                    description: String::from_str(
                        "Can not determine abstract data type, specified constraints do not map to an abstract data type.",
                    ),
                },
            ),
        }
    }

    /// Maps the given constraint onto the data type and fields of the type being generated
    /// (see `constraint_step`).
    #[verifier::loop_isolation(false)]
    pub fn map_constraint_to_abstract_data_type(
        &mut self,
        nested_types: &mut Vec<NestedType>,
        tera_fields: &mut Vec<Field>,
        constraint: &IslConstraint,
        code_gen_context: &mut CodeGenContext,
    ) -> (r: Generated<()>)
        ensures
            took_step(
                r,
                constraint_step::<L>(
                    MapState {
                        counter: old(self).nested_type_counter as nat,
                        nested: nested_types_view(old(nested_types)@),
                        fields: fields_view(old(tera_fields)@),
                        context: opt_adt(old(code_gen_context).abstract_data_type),
                    },
                    constraint@,
                ),
                final(self).nested_type_counter,
                final(nested_types)@,
                final(tera_fields)@,
                final(code_gen_context).abstract_data_type,
            ),
        decreases constraint, 1nat,
    {
        match constraint {
            IslConstraint::Element(isl_type, _) => {
                let target = match self.type_reference_name(isl_type, nested_types) {
                    Generated::Done(t) => t,
                    Generated::Failed(e) => {
                        return Generated::Failed(e);
                    },
                    Generated::Unsupported => {
                        return Generated::Unsupported;
                    },
                };
                apply_element::<L>(nested_types, tera_fields, isl_type, target, code_gen_context, self.nested_type_counter)
            },
            IslConstraint::Type(isl_type) => {
                let target = match self.type_reference_name(isl_type, nested_types) {
                    Generated::Done(t) => t,
                    Generated::Failed(e) => {
                        return Generated::Failed(e);
                    },
                    Generated::Unsupported => {
                        return Generated::Unsupported;
                    },
                };
                apply_type::<L>(nested_types, tera_fields, isl_type, target, code_gen_context, self.nested_type_counter)
            },
            IslConstraint::Fields(fields, content_closed) => {
                match verify_and_update_abstract_data_type(
                    AbstractDataType::Structure(*content_closed),
                    tera_fields,
                    code_gen_context,
                ) {
                    Err(e) => {
                        return Generated::Failed(e);
                    },
                    Ok(_) => {},
                }
                let ghost fs = isl_fields_view(fields@);
                let ghost s0 = MapState {
                    counter: self.nested_type_counter as nat,
                    nested: nested_types_view(nested_types@),
                    fields: fields_view(tera_fields@),
                    context: opt_adt(code_gen_context.abstract_data_type),
                };
                assert(fs.subrange(0, fs.len() as int) =~= fs);
                let mut i: usize = 0;
                while i < fields.len()
                    invariant
                        fs == isl_fields_view(fields@),
                        fs.len() == fields@.len(),
                        forall|j: int| 0 <= j < fs.len() ==> fs[j] == #[trigger] fields@[j]@,
                        i <= fs.len(),
                        fields_step::<L>(s0, fs) == fields_step::<L>(
                            MapState {
                                counter: self.nested_type_counter as nat,
                                nested: nested_types_view(nested_types@),
                                fields: fields_view(tera_fields@),
                                context: opt_adt(code_gen_context.abstract_data_type),
                            },
                            fs.subrange(i as int, fs.len() as int),
                        ),
                        opt_adt(code_gen_context.abstract_data_type) == s0.context,
                    decreases fs.len() - i,
                {
                    let ghost rest = fs.subrange(i as int, fs.len() as int);
                    assert(rest[0] == fs[i as int]);
                    assert(rest.subrange(1, rest.len() as int) =~= fs.subrange(i + 1, fs.len() as int));
                    let target = match self.type_reference_name(&fields[i].type_ref, nested_types) {
                        Generated::Done(t) => t,
                        Generated::Failed(e) => {
                            return Generated::Failed(e);
                        },
                        Generated::Unsupported => {
                            return Generated::Unsupported;
                        },
                    };
                    let field_def = &fields[i];
                    let ghost fields_before = tera_fields@;
                    if absorbs_nested(&target, nested_types) {
                        assert(nested_types_view(nested_types@)[0] == nested_types@[0]@);
                        if nested_types[0].fields.len() == 0 {
                            return Generated::Unsupported;
                        }
                        let (g, na) = absorb(nested_types);
                        let field = Field {
                            name: copy_string(&field_def.name),
                            value_type: g.value_type,
                            isl_type_name: g.isl_type_name,
                            abstract_data_type: Some(na),
                        };
                        tera_fields.push(field);
                        assert(fields_view(tera_fields@) =~= fields_view(fields_before).push(field@));
                    } else {
                        let field = Field {
                            name: copy_string(&field_def.name),
                            value_type: target,
                            isl_type_name: field_def.type_ref.name(),
                            abstract_data_type: None,
                        };
                        tera_fields.push(field);
                        assert(fields_view(tera_fields@) =~= fields_view(fields_before).push(field@));
                    }
                    i = i + 1;
                }
                assert(fs.subrange(i as int, fs.len() as int).len() == 0);
                Generated::Done(())
            },
            _ => Generated::Done(()),
        }
    }
}

} // verus!
