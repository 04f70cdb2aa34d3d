//! Conversion of ISL type definitions into the data model of the generated code.
use vstd::prelude::*;

use std::marker::PhantomData;

use crate::codegen::builders::{
    ScalarBuilder, SequenceBuilder, StructureBuilder, WrappedScalarBuilder, WrappedSequenceBuilder,
};
use crate::codegen::isl::{constraints_view, isl_fields_view, IslConstraint, IslField, IslType, IslTypeRef};
use crate::codegen::model::{
    copy_nodes, fields_view, nodes_view, AbstractDataType, CodeGenContext, DataModelNode, FieldPresence,
    FieldReference, FieldSpec, FullyQualifiedTypeReference, SequenceType, StructField, TypeReference,
};
use crate::codegen::result::{invalid_abstract_data_type_raw_error, CodeGenError};
use crate::codegen::spec::{
    after_generated, convert, field_index, generate_all, invalid, multiple_constraints_text, fields_insert, fields_step, has_element, has_fields, has_scalar_type,
    is_scalar_type_constraint, nested_step, nested_type_name, pop_namespace, reference_step,
    required_reference_step, scalar_base_step, scalar_step, sequence_parts_step, sequence_step,
    store_index, store_insert, structure_parts_step, structure_step, unique_reference_step,
    wrapped_scalar_step, wrapped_sequence_step, GenState, Outcome, SequenceParts, Step,
    StructureParts,
};
use crate::codegen::utils::{to_upper_camel_case, IonSchemaType, JavaLanguage, Language, RustLanguage};
use crate::text::{copy_string, copy_strings, str_equals, strings_view, usize_to_string};

verus! {

/// The result of a step of code generation: a value, an error, or an input that code generation
/// does not support (the generator stops there).
pub enum Generated<T> {
    Done(T),
    Failed(CodeGenError),
    Unsupported,
}

/// Whether the executable result `r` is the outcome `o`, its value taken by `v`.
pub open spec fn generated_matches<T, U>(r: Generated<T>, o: Outcome<U>, v: spec_fn(T) -> U) -> bool {
    match r {
        Generated::Done(x) => o == Outcome::<U>::Done(v(x)),
        Generated::Failed(e) => o == Outcome::<U>::Failed(e@),
        Generated::Unsupported => o == Outcome::<U>::Stopped,
    }
}

/// Whether a call that returned `r` and left the generator in state `g` and the nested types
/// `nested` in its context took the step `s`.
pub open spec fn follows<T, U>(
    r: Generated<T>,
    v: spec_fn(T) -> U,
    s: Step<U>,
    g: GenState,
    nested: Seq<crate::codegen::model::NodeSpec>,
) -> bool {
    &&& generated_matches(r, s.outcome, v)
    &&& g == s.state
    &&& nested == s.nested
}

/// The value of a generator's store.
pub open spec fn store_view(s: Seq<(FullyQualifiedTypeReference, DataModelNode)>) -> Seq<
    (TypeReference, crate::codegen::model::NodeSpec),
> {
    s.map_values(|e: (FullyQualifiedTypeReference, DataModelNode)| (e.0@, e.1@))
}

pub open spec fn opt_type_view(t: Option<FullyQualifiedTypeReference>) -> Option<TypeReference> {
    match t {
        Some(t) => Some(t@),
        None => None,
    }
}

/// Generates the data model of the code for a target language `L`.
pub struct CodeGenerator<L: Language> {
    /// The fully qualified name of the type being generated; Java code generation starts it with
    /// the namespace of the generated code.
    pub current_type_fully_qualified_name: Vec<String>,
    /// The counter for naming nested type definitions.
    pub nested_type_counter: usize,
    /// The generated types by their type references, each reference at most once.
    pub data_model_store: Vec<(FullyQualifiedTypeReference, DataModelNode)>,
    pub phantom: PhantomData<L>,
}

impl<L: Language> CodeGenerator<L> {
    /// The state of this generator.
    pub open spec fn state(&self) -> GenState {
        GenState {
            namespace: strings_view(self.current_type_fully_qualified_name@),
            counter: self.nested_type_counter as nat,
            store: store_view(self.data_model_store@),
        }
    }
}

impl CodeGenerator<RustLanguage> {
    /// A generator of Rust code; Rust code has no namespace of its own.
    pub fn new() -> (r: Self)
        ensures
            r.state() == (GenState { namespace: Seq::empty(), counter: 0, store: Seq::empty() }),
    {
        let r = CodeGenerator {
            current_type_fully_qualified_name: Vec::new(),
            nested_type_counter: 0,
            data_model_store: Vec::new(),
            phantom: PhantomData,
        };
        assert(r.state().namespace =~= Seq::empty());
        assert(r.state().store =~= Seq::empty());
        r
    }
}

impl CodeGenerator<JavaLanguage> {
    /// A generator of Java code in the package `namespace`.
    pub fn new(namespace: Vec<String>) -> (r: Self)
        ensures
            r.state() == (GenState { namespace: strings_view(namespace@), counter: 0, store: Seq::empty() }),
    {
        let r = CodeGenerator {
            current_type_fully_qualified_name: namespace,
            nested_type_counter: 0,
            data_model_store: Vec::new(),
            phantom: PhantomData,
        };
        assert(r.state().store =~= Seq::empty());
        r
    }
}

/// Sets the field `f` in `fields`: a field of the same name is replaced, otherwise `f` is added.
fn insert_field(fields: &mut Vec<StructField>, f: StructField)
    ensures
        fields_view(final(fields)@) == fields_insert(fields_view(old(fields)@), f@),
{
    let ghost fs = fields_view(fields@);
    let mut i: usize = fields.len();
    let mut found = false;
    assert(fs.subrange(0, i as int) =~= fs);
    while i > 0
        invariant_except_break
            !found,
            i <= fields@.len(),
            fs == fields_view(fields@),
            field_index(fs, f@.name) == field_index(fs.subrange(0, i as int), f@.name),
        ensures
            fs == fields_view(fields@),
            found ==> i < fields@.len() && field_index(fs, f@.name) == i,
            !found ==> field_index(fs, f@.name) == -1,
        decreases i,
    {
        let ghost sub = fs.subrange(0, i as int);
        assert(sub.drop_last() =~= fs.subrange(0, i - 1));
        assert(sub.last() == fs[i - 1]);
        assert(fs[i - 1] == fields@[i - 1]@);
        if str_equals(fields[i - 1].name.as_str(), f.name.as_str()) {
            i = i - 1;
            found = true;
            break;
        }
        i = i - 1;
    }
    proof {
        if !found {
            assert(fs.subrange(0, 0) =~= Seq::<FieldSpec>::empty());
        }
    }
    let ghost fv = f@;
    if found {
        fields.set(i, f);
        assert(fields_view(fields@) =~= fs.update(i as int, fv));
    } else {
        fields.push(f);
        assert(fields_view(fields@) =~= fs.push(fv));
    }
}

impl<L: Language> CodeGenerator<L> {
    /// Returns the name of the next nested type: `NestedType` and the counter, raised by one.
    /// The counter only grows, so successive calls never give the same name
    /// (`law_nested_type_names_differ`).
    pub fn next_nested_type_name(&mut self) -> (r: String)
        requires
            old(self).nested_type_counter < usize::MAX,
        ensures
            r@ == nested_type_name(old(self).nested_type_counter as nat + 1),
            final(self).state() == (GenState { counter: old(self).state().counter + 1, ..old(self).state() }),
    {
        self.nested_type_counter = self.nested_type_counter + 1;
        let mut name = String::from_str("NestedType");
        let digits = usize_to_string(self.nested_type_counter);
        name.append(digits.as_str());
        proof {
            reveal_strlit("NestedType");
        }
        name
    }

    /// Associates the type reference `key` with `node` in the store.
    fn insert_into_store(&mut self, key: FullyQualifiedTypeReference, node: DataModelNode)
        ensures
            final(self).state() == (GenState {
                store: store_insert(old(self).state().store, key@, node@),
                ..old(self).state()
            }),
    {
        let ghost s = store_view(self.data_model_store@);
        let ghost k = key@;
        let mut i: usize = self.data_model_store.len();
        let mut found = false;
        assert(s.subrange(0, i as int) =~= s);
        while i > 0
            invariant_except_break
                !found,
                k == key@,
                i <= self.data_model_store@.len(),
                s == store_view(self.data_model_store@),
                store_index(s, k) == store_index(s.subrange(0, i as int), k),
            ensures
                s == store_view(self.data_model_store@),
                found ==> i < self.data_model_store@.len() && store_index(s, k) == i,
                !found ==> store_index(s, k) == -1,
            decreases i,
        {
            let ghost sub = s.subrange(0, i as int);
            assert(sub.drop_last() =~= s.subrange(0, i - 1));
            assert(sub.last() == s[i - 1]);
            assert(s[i - 1] == (self.data_model_store@[i - 1].0@, self.data_model_store@[i - 1].1@));
            if self.data_model_store[i - 1].0.same_as(&key) {
                i = i - 1;
                found = true;
                break;
            }
            i = i - 1;
        }
        proof {
            if !found {
                assert(s.subrange(0, 0) =~= Seq::<(TypeReference, crate::codegen::model::NodeSpec)>::empty());
            }
        }
        let ghost e = (key@, node@);
        if found {
            self.data_model_store.set(i, (key, node));
            assert(store_view(self.data_model_store@) =~= s.update(i as int, e));
        } else {
            self.data_model_store.push((key, node));
            assert(store_view(self.data_model_store@) =~= s.push(e));
        }
    }
}

/// Whether the constraints contain a `fields` constraint.
fn has_fields_constraint(constraints: &Vec<IslConstraint>) -> (r: bool)
    ensures
        r == has_fields(constraints_view(constraints@)),
{
    let ghost cs = constraints_view(constraints@);
    let mut i: usize = 0;
    while i < constraints.len()
        invariant
            i <= constraints@.len(),
            cs == constraints_view(constraints@),
            forall|j: int| 0 <= j < i ==> !(cs[j] is Fields),
        decreases constraints@.len() - i,
    {
        if matches!(constraints[i], IslConstraint::Fields(_, _)) {
            assert(cs[i as int] is Fields);
            return true;
        }
        i = i + 1;
    }
    false
}

/// Whether the constraints contain an `element` constraint.
fn has_element_constraint(constraints: &Vec<IslConstraint>) -> (r: bool)
    ensures
        r == has_element(constraints_view(constraints@)),
{
    let ghost cs = constraints_view(constraints@);
    let mut i: usize = 0;
    while i < constraints.len()
        invariant
            i <= constraints@.len(),
            cs == constraints_view(constraints@),
            forall|j: int| 0 <= j < i ==> !(cs[j] is Element),
        decreases constraints@.len() - i,
    {
        if matches!(constraints[i], IslConstraint::Element(_, _)) {
            assert(cs[i as int] is Element);
            return true;
        }
        i = i + 1;
    }
    false
}

/// Verifies if the given constraints contain a `type` constraint without any container type
/// references (`sexp`, `list`, `struct`).
pub fn contains_scalar_constraints(constraints: &Vec<IslConstraint>) -> (r: bool)
    ensures
        r == has_scalar_type(constraints_view(constraints@)),
{
    let ghost cs = constraints_view(constraints@);
    let mut i: usize = 0;
    while i < constraints.len()
        invariant
            i <= constraints@.len(),
            cs == constraints_view(constraints@),
            forall|j: int| 0 <= j < i ==> !is_scalar_type_constraint(#[trigger] cs[j]),
        decreases constraints@.len() - i,
    {
        if let IslConstraint::Type(r) = &constraints[i] {
            let name = r.name();
            if !str_equals(name.as_str(), "list") && !str_equals(name.as_str(), "sexp") && !str_equals(
                name.as_str(),
                "struct",
            ) {
                proof {
                    reveal_strlit("list");
                    reveal_strlit("sexp");
                    reveal_strlit("struct");
                }
                assert(is_scalar_type_constraint(cs[i as int]));
                return true;
            }
            proof {
                reveal_strlit("list");
                reveal_strlit("sexp");
                reveal_strlit("struct");
            }
        }
        i = i + 1;
    }
    false
}

/// The value of the parts of a structure that a builder holds.
pub open spec fn structure_parts_view(b: StructureBuilder) -> StructureParts {
    StructureParts {
        fields: match b.fields {
            Some(f) => Some(fields_view(f@)),
            None => None,
        },
        is_closed: b.is_closed,
    }
}

/// The value of the parts of a sequence that a builder holds, with whether a `type` constraint
/// was found.
pub open spec fn sequence_parts_view(
    element_type: Option<FullyQualifiedTypeReference>,
    sequence_type: Option<SequenceType>,
    found_type: bool,
) -> SequenceParts {
    SequenceParts { element_type: opt_type_view(element_type), sequence_type, found_type }
}

/// The error for a second constraint of the kind `kind` in a type definition.
fn multiple_constraints_error(kind: &str) -> (r: CodeGenError)
    ensures
        r@ == invalid(multiple_constraints_text(kind@)),
{
    let mut text = String::from_str("Multiple `");
    text.append(kind);
    text.append(
        "` constraints in the type definitions are not supported in code generation as it can lead to conflicting types.",
    );
    invalid_abstract_data_type_raw_error(text.as_str())
}

impl<L: Language> CodeGenerator<L> {
    /// Provides the type reference that an ISL type reference resolves to in the data model;
    /// `None` when it names `struct`, `list` or `sexp`, as open-ended types are not supported.
    /// An anonymous type definition becomes a nested type of the context.
    pub fn fully_qualified_type_ref_name(
        &mut self,
        isl_type_ref: &IslTypeRef,
        field_presence: FieldPresence,
        parent_code_gen_context: &mut CodeGenContext,
    ) -> (r: Generated<Option<FullyQualifiedTypeReference>>)
        ensures
            follows(
                r,
                |t: Option<FullyQualifiedTypeReference>| opt_type_view(t),
                reference_step::<L>(
                    old(self).state(),
                    isl_type_ref@,
                    field_presence,
                    nodes_view(old(parent_code_gen_context).nested_types@),
                ),
                final(self).state(),
                nodes_view(final(parent_code_gen_context).nested_types@),
            ),
        decreases isl_type_ref, 0nat,
    {
        match isl_type_ref {
            IslTypeRef::Named(name) => {
                match IonSchemaType::try_from_name(name.as_str()) {
                    None => Generated::Unsupported,
                    Some(schema_type) => match L::target_type(&schema_type) {
                        Some(target) => {
                            let t = FullyQualifiedTypeReference::simple(target);
                            if field_presence == FieldPresence::Optional {
                                Generated::Done(Some(L::target_type_as_optional(t)))
                            } else {
                                Generated::Done(Some(t))
                            }
                        },
                        None => Generated::Done(None),
                    },
                }
            },
            IslTypeRef::TypeImport(_) => Generated::Unsupported,
            IslTypeRef::Anonymous(type_def) => {
                if self.nested_type_counter == usize::MAX {
                    return Generated::Unsupported;
                }
                let name = self.next_nested_type_name();
                let def: &IslType = type_def;
                match self.generate_nested_type(&name, def, field_presence, parent_code_gen_context) {
                    Generated::Done(t) => Generated::Done(Some(t)),
                    Generated::Failed(e) => Generated::Failed(e),
                    Generated::Unsupported => Generated::Unsupported,
                }
            },
        }
    }

    /// Resolves a type reference that must resolve to a type.
    fn required_type_ref_name(
        &mut self,
        isl_type_ref: &IslTypeRef,
        field_presence: FieldPresence,
        code_gen_context: &mut CodeGenContext,
    ) -> (r: Generated<FullyQualifiedTypeReference>)
        ensures
            follows(
                r,
                |t: FullyQualifiedTypeReference| t@,
                required_reference_step::<L>(
                    old(self).state(),
                    isl_type_ref@,
                    field_presence,
                    nodes_view(old(code_gen_context).nested_types@),
                ),
                final(self).state(),
                nodes_view(final(code_gen_context).nested_types@),
            ),
        decreases isl_type_ref, 1nat,
    {
        match self.fully_qualified_type_ref_name(isl_type_ref, field_presence, code_gen_context) {
            Generated::Done(Some(t)) => Generated::Done(t),
            Generated::Done(None) => {
                let mut text = String::from_str("Could not determine `FullQualifiedTypeReference` for type ");
                let name = isl_type_ref.name();
                text.append(name.as_str());
                Generated::Failed(invalid_abstract_data_type_raw_error(text.as_str()))
            },
            Generated::Failed(e) => Generated::Failed(e),
            Generated::Unsupported => Generated::Unsupported,
        }
    }

    /// Returns an error if a constraint of the kind `constraint_name` was already found
    /// (`found_constraint`); otherwise resolves its type reference, which must resolve to a type.
    fn handle_duplicate_constraint(
        &mut self,
        found_constraint: bool,
        constraint_name: &str,
        isl_type: &IslTypeRef,
        field_presence: FieldPresence,
        code_gen_context: &mut CodeGenContext,
    ) -> (r: Generated<FullyQualifiedTypeReference>)
        ensures
            follows(
                r,
                |t: FullyQualifiedTypeReference| t@,
                unique_reference_step::<L>(
                    old(self).state(),
                    found_constraint,
                    constraint_name@,
                    isl_type@,
                    field_presence,
                    nodes_view(old(code_gen_context).nested_types@),
                ),
                final(self).state(),
                nodes_view(final(code_gen_context).nested_types@),
            ),
        decreases isl_type, 2nat,
    {
        if found_constraint {
            return Generated::Failed(multiple_constraints_error(constraint_name));
        }
        self.required_type_ref_name(isl_type, field_presence, code_gen_context)
    }

    /// Generates a nested type that is part of another type definition and adds it to the
    /// nested types of the parent's context; returns the type reference to it.
    fn generate_nested_type(
        &mut self,
        nested_name: &String,
        isl_type: &IslType,
        field_presence: FieldPresence,
        parent_code_gen_context: &mut CodeGenContext,
    ) -> (r: Generated<FullyQualifiedTypeReference>)
        ensures
            follows(
                r,
                |t: FullyQualifiedTypeReference| t@,
                nested_step::<L>(
                    old(self).state(),
                    nested_name@,
                    isl_type@,
                    field_presence,
                    nodes_view(old(parent_code_gen_context).nested_types@),
                ),
                final(self).state(),
                nodes_view(final(parent_code_gen_context).nested_types@),
            ),
        decreases isl_type, 3nat,
    {
        let mut code_gen_context = CodeGenContext::new();
        assert(nodes_view(code_gen_context.nested_types@) =~= Seq::empty());
        let mut data_model_node = match self.convert_node(
            nested_name,
            field_presence,
            isl_type,
            &mut code_gen_context,
            true,
        ) {
            Generated::Done(n) => n,
            Generated::Failed(e) => return Generated::Failed(e),
            Generated::Unsupported => return Generated::Unsupported,
        };
        let ghost before = nodes_view(parent_code_gen_context.nested_types@);
        parent_code_gen_context.nested_types.push(data_model_node.copy());
        assert(nodes_view(parent_code_gen_context.nested_types@) =~= before.push(data_model_node@));
        let ghost ns = strings_view(self.current_type_fully_qualified_name@);
        let _ = self.current_type_fully_qualified_name.pop();
        assert(strings_view(self.current_type_fully_qualified_name@) =~= pop_namespace(ns));
        match data_model_node.fully_qualified_type_ref::<L>() {
            Some(t) => {
                if field_presence == FieldPresence::Optional {
                    Generated::Done(L::target_type_as_optional(t))
                } else {
                    Generated::Done(t)
                }
            },
            None => Generated::Failed(
                invalid_abstract_data_type_raw_error("Can not determine fully qualified name for the data model"),
            ),
        }
    }

    /// Converts the ISL type definition `isl_type` named `isl_type_name` into a data model node,
    /// adds it to the store, and adds the types nested in it to `code_gen_context`.
    fn convert_node(
        &mut self,
        isl_type_name: &String,
        field_presence: FieldPresence,
        isl_type: &IslType,
        code_gen_context: &mut CodeGenContext,
        is_nested_type: bool,
    ) -> (r: Generated<DataModelNode>)
        ensures
            follows(
                r,
                |n: DataModelNode| n@,
                convert::<L>(
                    old(self).state(),
                    isl_type_name@,
                    field_presence,
                    isl_type@,
                    nodes_view(old(code_gen_context).nested_types@),
                    is_nested_type,
                ),
                final(self).state(),
                nodes_view(final(code_gen_context).nested_types@),
            ),
        decreases isl_type, 2nat,
    {
        L::add_type_to_namespace(is_nested_type, isl_type_name.as_str(), &mut self.current_type_fully_qualified_name);
        let built = if has_fields_constraint(&isl_type.constraints) {
            self.build_structure_from_constraints(code_gen_context, isl_type)
        } else if has_element_constraint(&isl_type.constraints) {
            if is_nested_type {
                self.build_sequence_from_constraints(code_gen_context, isl_type)
            } else {
                self.build_wrapped_sequence_from_constraints(code_gen_context, isl_type)
            }
        } else if contains_scalar_constraints(&isl_type.constraints) {
            if is_nested_type {
                self.build_scalar_from_constraints(code_gen_context, isl_type)
            } else {
                self.build_wrapped_scalar_from_constraints(code_gen_context, isl_type)
            }
        } else {
            Generated::Unsupported
        };
        let abstract_data_type = match built {
            Generated::Done(a) => a,
            Generated::Failed(e) => return Generated::Failed(e),
            Generated::Unsupported => return Generated::Unsupported,
        };
        let data_model_node = DataModelNode {
            name: to_upper_camel_case(isl_type_name.as_str()),
            code_gen_type: Some(abstract_data_type.copy()),
            nested_types: copy_nodes(&code_gen_context.nested_types),
        };
        assert(data_model_node@.nested_types =~= nodes_view(data_model_node.nested_types@));
        let key = match abstract_data_type.fully_qualified_type_ref::<L>() {
            Some(t) => t,
            None => return Generated::Failed(
                invalid_abstract_data_type_raw_error("Can not determine fully qualified name for the data model"),
            ),
        };
        self.insert_into_store(key, data_model_node.copy());
        Generated::Done(data_model_node)
    }

    /// Resolves the fields of a `fields` constraint, in order; a later field of the same name
    /// replaces an earlier one.
    #[verifier::loop_isolation(false)]
    fn fields_of_constraint(&mut self, struct_fields: &Vec<IslField>, code_gen_context: &mut CodeGenContext) -> (r:
        Generated<Vec<StructField>>)
        ensures
            follows(
                r,
                |f: Vec<StructField>| fields_view(f@),
                fields_step::<L>(
                    old(self).state(),
                    isl_fields_view(struct_fields@),
                    nodes_view(old(code_gen_context).nested_types@),
                    Seq::empty(),
                ),
                final(self).state(),
                nodes_view(final(code_gen_context).nested_types@),
            ),
        decreases struct_fields, 0nat,
    {
        let ghost fsv = isl_fields_view(struct_fields@);
        let ghost whole = fields_step::<L>(
            self.state(),
            fsv,
            nodes_view(code_gen_context.nested_types@),
            Seq::empty(),
        );
        let mut fields: Vec<StructField> = Vec::new();
        assert(fields_view(fields@) =~= Seq::<FieldSpec>::empty());
        assert(fsv.subrange(0, fsv.len() as int) =~= fsv);
        let mut j: usize = 0;
        while j < struct_fields.len()
            invariant
                j <= struct_fields@.len(),
                fsv.len() == struct_fields@.len(),
                whole == fields_step::<L>(
                    self.state(),
                    fsv.subrange(j as int, fsv.len() as int),
                    nodes_view(code_gen_context.nested_types@),
                    fields_view(fields@),
                ),
            decreases struct_fields@.len() - j,
        {
            let ghost rest = fsv.subrange(j as int, fsv.len() as int);
            assert(rest[0] == fsv[j as int]);
            assert(rest.subrange(1, rest.len() as int) =~= fsv.subrange(j + 1, fsv.len() as int));
            let field = &struct_fields[j];
            assert(fsv[j as int] == struct_fields@[j as int]@);
            let field_presence = if field.occurs_min == 0 && field.occurs_max == 1 {
                FieldPresence::Optional
            } else if field.occurs_min == 1 && field.occurs_max == 1 {
                FieldPresence::Required
            } else {
                return Generated::Failed(
                    invalid_abstract_data_type_raw_error(
                        "Fields with occurs as a range aren't supported with code generation",
                    ),
                );
            };
            match self.fully_qualified_type_ref_name(&field.type_ref, field_presence, code_gen_context) {
                Generated::Done(Some(t)) => {
                    let f = StructField { name: copy_string(&field.name), reference: FieldReference(t, field_presence) };
                    insert_field(&mut fields, f);
                },
                Generated::Done(None) => {
                    return Generated::Failed(invalid_abstract_data_type_raw_error("Given type doesn't have a name"));
                },
                Generated::Failed(e) => {
                    return Generated::Failed(e);
                },
                Generated::Unsupported => {
                    return Generated::Unsupported;
                },
            }
            j = j + 1;
        }
        Generated::Done(fields)
    }

    /// Builds a structure from the constraints of `parent_isl_type`.
    #[verifier::loop_isolation(false)]
    fn build_structure_from_constraints(
        &mut self,
        code_gen_context: &mut CodeGenContext,
        parent_isl_type: &IslType,
    ) -> (r: Generated<AbstractDataType>)
        ensures
            follows(
                r,
                |a: AbstractDataType| a@,
                structure_step::<L>(
                    old(self).state(),
                    nodes_view(old(code_gen_context).nested_types@),
                    parent_isl_type@,
                ),
                final(self).state(),
                nodes_view(final(code_gen_context).nested_types@),
            ),
        decreases parent_isl_type, 1nat,
    {
        let ghost cs = parent_isl_type@.constraints;
        let ghost whole = structure_parts_step::<L>(
            self.state(),
            cs,
            nodes_view(code_gen_context.nested_types@),
            StructureParts { fields: None, is_closed: None },
        );
        let mut structure_builder = StructureBuilder::default();
        structure_builder.name(copy_strings(&self.current_type_fully_qualified_name)).source(parent_isl_type.copy());
        assert(cs.subrange(0, cs.len() as int) =~= cs);
        let mut i: usize = 0;
        while i < parent_isl_type.constraints.len()
            invariant
                i <= parent_isl_type.constraints@.len(),
                cs.len() == parent_isl_type.constraints@.len(),
                structure_builder.name matches Some(n) && strings_view(n@) == old(self).state().namespace,
                structure_builder.source matches Some(s) && s@ == parent_isl_type@,
                structure_builder.doc_comment is None,
                whole == structure_parts_step::<L>(
                    self.state(),
                    cs.subrange(i as int, cs.len() as int),
                    nodes_view(code_gen_context.nested_types@),
                    structure_parts_view(structure_builder),
                ),
            decreases parent_isl_type.constraints@.len() - i,
        {
            let ghost rest = cs.subrange(i as int, cs.len() as int);
            assert(rest[0] == cs[i as int]);
            assert(rest.subrange(1, rest.len() as int) =~= cs.subrange(i + 1, cs.len() as int));
            assert(cs[i as int] == parent_isl_type.constraints@[i as int]@);
            match &parent_isl_type.constraints[i] {
                IslConstraint::Fields(struct_fields, is_closed) => {
                    match self.fields_of_constraint(struct_fields, code_gen_context) {
                        Generated::Done(fields) => {
                            structure_builder.fields(fields).is_closed(*is_closed);
                        },
                        Generated::Failed(e) => {
                            return Generated::Failed(e);
                        },
                        Generated::Unsupported => {
                            return Generated::Unsupported;
                        },
                    }
                },
                IslConstraint::Type(_) => {
                    structure_builder.is_closed(false);
                },
                _ => {
                    return Generated::Failed(
                        invalid_abstract_data_type_raw_error(
                            "Could not determine the abstract data type due to conflicting constraints",
                        ),
                    );
                },
            }
            i = i + 1;
        }
        match structure_builder.build() {
            Ok(structure) => Generated::Done(AbstractDataType::Structure(structure)),
            Err(e) => Generated::Failed(e.into_code_gen_error()),
        }
    }

    /// Builds a scalar with a name of its own from the constraints of `parent_isl_type`: a
    /// single `type` constraint gives its base type; `container_length` constraints are ignored.
    #[verifier::loop_isolation(false)]
    fn build_wrapped_scalar_from_constraints(
        &mut self,
        code_gen_context: &mut CodeGenContext,
        parent_isl_type: &IslType,
    ) -> (r: Generated<AbstractDataType>)
        ensures
            follows(
                r,
                |a: AbstractDataType| a@,
                wrapped_scalar_step::<L>(
                    old(self).state(),
                    nodes_view(old(code_gen_context).nested_types@),
                    parent_isl_type@,
                ),
                final(self).state(),
                nodes_view(final(code_gen_context).nested_types@),
            ),
        decreases parent_isl_type, 1nat,
    {
        let ghost cs = parent_isl_type@.constraints;
        let ghost whole = scalar_base_step::<L>(
            self.state(),
            cs,
            nodes_view(code_gen_context.nested_types@),
            true,
            None,
        );
        let mut wrapped_scalar_builder = WrappedScalarBuilder::default();
        wrapped_scalar_builder.name(copy_strings(&self.current_type_fully_qualified_name)).source(
            parent_isl_type.copy(),
        );
        let mut found_base_type = false;
        assert(cs.subrange(0, cs.len() as int) =~= cs);
        let mut i: usize = 0;
        while i < parent_isl_type.constraints.len()
            invariant
                i <= parent_isl_type.constraints@.len(),
                cs.len() == parent_isl_type.constraints@.len(),
                wrapped_scalar_builder.name matches Some(n) && strings_view(n@) == old(self).state().namespace,
                wrapped_scalar_builder.source matches Some(s) && s@ == parent_isl_type@,
                wrapped_scalar_builder.doc_comment is None,
                found_base_type == wrapped_scalar_builder.base_type is Some,
                whole == scalar_base_step::<L>(
                    self.state(),
                    cs.subrange(i as int, cs.len() as int),
                    nodes_view(code_gen_context.nested_types@),
                    true,
                    opt_type_view(wrapped_scalar_builder.base_type),
                ),
            decreases parent_isl_type.constraints@.len() - i,
        {
            let ghost rest = cs.subrange(i as int, cs.len() as int);
            assert(rest[0] == cs[i as int]);
            assert(rest.subrange(1, rest.len() as int) =~= cs.subrange(i + 1, cs.len() as int));
            assert(cs[i as int] == parent_isl_type.constraints@[i as int]@);
            match &parent_isl_type.constraints[i] {
                IslConstraint::Type(isl_type) => {
                    match self.handle_duplicate_constraint(
                        found_base_type,
                        "type",
                        isl_type,
                        FieldPresence::Required,
                        code_gen_context,
                    ) {
                        Generated::Done(t) => {
                            wrapped_scalar_builder.base_type(t);
                            found_base_type = true;
                        },
                        Generated::Failed(e) => {
                            return Generated::Failed(e);
                        },
                        Generated::Unsupported => {
                            return Generated::Unsupported;
                        },
                    }
                },
                IslConstraint::ContainerLength(_, _) => {},
                _ => {
                    return Generated::Failed(
                        invalid_abstract_data_type_raw_error(
                            "Could not determine the abstract data type due to conflicting constraints",
                        ),
                    );
                },
            }
            i = i + 1;
        }
        match wrapped_scalar_builder.build() {
            Ok(scalar) => Generated::Done(AbstractDataType::WrappedScalar(scalar)),
            Err(e) => Generated::Failed(e.into_code_gen_error()),
        }
    }

    /// Builds a nested scalar from the constraints of `parent_isl_type`: a single `type`
    /// constraint gives its base type.
    #[verifier::loop_isolation(false)]
    fn build_scalar_from_constraints(
        &mut self,
        code_gen_context: &mut CodeGenContext,
        parent_isl_type: &IslType,
    ) -> (r: Generated<AbstractDataType>)
        ensures
            follows(
                r,
                |a: AbstractDataType| a@,
                scalar_step::<L>(
                    old(self).state(),
                    nodes_view(old(code_gen_context).nested_types@),
                    parent_isl_type@,
                ),
                final(self).state(),
                nodes_view(final(code_gen_context).nested_types@),
            ),
        decreases parent_isl_type, 1nat,
    {
        let ghost cs = parent_isl_type@.constraints;
        let ghost whole = scalar_base_step::<L>(
            self.state(),
            cs,
            nodes_view(code_gen_context.nested_types@),
            false,
            None,
        );
        let mut scalar_builder = ScalarBuilder::default();
        scalar_builder.source(parent_isl_type.copy());
        let mut found_base_type = false;
        assert(cs.subrange(0, cs.len() as int) =~= cs);
        let mut i: usize = 0;
        while i < parent_isl_type.constraints.len()
            invariant
                i <= parent_isl_type.constraints@.len(),
                cs.len() == parent_isl_type.constraints@.len(),
                scalar_builder.source matches Some(s) && s@ == parent_isl_type@,
                scalar_builder.doc_comment is None,
                found_base_type == scalar_builder.base_type is Some,
                whole == scalar_base_step::<L>(
                    self.state(),
                    cs.subrange(i as int, cs.len() as int),
                    nodes_view(code_gen_context.nested_types@),
                    false,
                    opt_type_view(scalar_builder.base_type),
                ),
            decreases parent_isl_type.constraints@.len() - i,
        {
            let ghost rest = cs.subrange(i as int, cs.len() as int);
            assert(rest[0] == cs[i as int]);
            assert(rest.subrange(1, rest.len() as int) =~= cs.subrange(i + 1, cs.len() as int));
            assert(cs[i as int] == parent_isl_type.constraints@[i as int]@);
            match &parent_isl_type.constraints[i] {
                IslConstraint::Type(isl_type) => {
                    match self.handle_duplicate_constraint(
                        found_base_type,
                        "type",
                        isl_type,
                        FieldPresence::Required,
                        code_gen_context,
                    ) {
                        Generated::Done(t) => {
                            scalar_builder.base_type(t);
                            found_base_type = true;
                        },
                        Generated::Failed(e) => {
                            return Generated::Failed(e);
                        },
                        Generated::Unsupported => {
                            return Generated::Unsupported;
                        },
                    }
                },
                _ => {
                    return Generated::Failed(
                        invalid_abstract_data_type_raw_error(
                            "Could not determine the abstract data type due to conflicting constraints",
                        ),
                    );
                },
            }
            i = i + 1;
        }
        match scalar_builder.build() {
            Ok(scalar) => Generated::Done(AbstractDataType::Scalar(scalar)),
            Err(e) => Generated::Failed(e.into_code_gen_error()),
        }
    }

    /// Builds a sequence with a name of its own from the constraints of `parent_isl_type`: a
    /// single `element` constraint gives its element type and a single `type` constraint whether
    /// it is a list or an s-expression; `container_length` constraints are ignored.
    #[verifier::loop_isolation(false)]
    fn build_wrapped_sequence_from_constraints(
        &mut self,
        code_gen_context: &mut CodeGenContext,
        parent_isl_type: &IslType,
    ) -> (r: Generated<AbstractDataType>)
        ensures
            follows(
                r,
                |a: AbstractDataType| a@,
                wrapped_sequence_step::<L>(
                    old(self).state(),
                    nodes_view(old(code_gen_context).nested_types@),
                    parent_isl_type@,
                ),
                final(self).state(),
                nodes_view(final(code_gen_context).nested_types@),
            ),
        decreases parent_isl_type, 1nat,
    {
        let ghost cs = parent_isl_type@.constraints;
        let ghost whole = sequence_parts_step::<L>(
            self.state(),
            cs,
            nodes_view(code_gen_context.nested_types@),
            true,
            sequence_parts_view(None, None, false),
        );
        let mut wrapped_sequence_builder = WrappedSequenceBuilder::default();
        wrapped_sequence_builder.name(copy_strings(&self.current_type_fully_qualified_name)).source(
            parent_isl_type.copy(),
        );
        let mut found_base_type = false;
        let mut found_element_constraint = false;
        assert(cs.subrange(0, cs.len() as int) =~= cs);
        let mut i: usize = 0;
        while i < parent_isl_type.constraints.len()
            invariant
                i <= parent_isl_type.constraints@.len(),
                cs.len() == parent_isl_type.constraints@.len(),
                wrapped_sequence_builder.name matches Some(n) && strings_view(n@) == old(self).state().namespace,
                wrapped_sequence_builder.source matches Some(s) && s@ == parent_isl_type@,
                wrapped_sequence_builder.doc_comment is None,
                found_element_constraint == wrapped_sequence_builder.element_type is Some,
                whole == sequence_parts_step::<L>(
                    self.state(),
                    cs.subrange(i as int, cs.len() as int),
                    nodes_view(code_gen_context.nested_types@),
                    true,
                    sequence_parts_view(
                        wrapped_sequence_builder.element_type,
                        wrapped_sequence_builder.sequence_type,
                        found_base_type,
                    ),
                ),
            decreases parent_isl_type.constraints@.len() - i,
        {
            let ghost rest = cs.subrange(i as int, cs.len() as int);
            assert(rest[0] == cs[i as int]);
            assert(rest.subrange(1, rest.len() as int) =~= cs.subrange(i + 1, cs.len() as int));
            assert(cs[i as int] == parent_isl_type.constraints@[i as int]@);
            match &parent_isl_type.constraints[i] {
                IslConstraint::Element(isl_type_ref, _) => {
                    match self.handle_duplicate_constraint(
                        found_element_constraint,
                        "type",
                        isl_type_ref,
                        FieldPresence::Required,
                        code_gen_context,
                    ) {
                        Generated::Done(t) => {
                            wrapped_sequence_builder.element_type(t);
                            found_element_constraint = true;
                        },
                        Generated::Failed(e) => {
                            return Generated::Failed(e);
                        },
                        Generated::Unsupported => {
                            return Generated::Unsupported;
                        },
                    }
                },
                IslConstraint::Type(isl_type_ref) => {
                    if found_base_type {
                        return Generated::Failed(multiple_constraints_error("type"));
                    }
                    let name = isl_type_ref.name();
                    if str_equals(name.as_str(), "sexp") {
                        wrapped_sequence_builder.sequence_type(SequenceType::SExp);
                    } else if str_equals(name.as_str(), "list") {
                        wrapped_sequence_builder.sequence_type(SequenceType::List);
                    }
                    found_base_type = true;
                },
                IslConstraint::ContainerLength(_, _) => {},
                _ => {
                    return Generated::Failed(
                        invalid_abstract_data_type_raw_error(
                            "Could not determine the abstract data type due to conflicting constraints",
                        ),
                    );
                },
            }
            i = i + 1;
        }
        match wrapped_sequence_builder.build() {
            Ok(sequence) => Generated::Done(AbstractDataType::WrappedSequence(sequence)),
            Err(e) => Generated::Failed(e.into_code_gen_error()),
        }
    }

    /// Builds a nested sequence from the constraints of `parent_isl_type`: `element` constraints
    /// give its element type and `type` constraints whether it is a list or an s-expression;
    /// `container_length` constraints are ignored.
    #[verifier::loop_isolation(false)]
    fn build_sequence_from_constraints(
        &mut self,
        code_gen_context: &mut CodeGenContext,
        parent_isl_type: &IslType,
    ) -> (r: Generated<AbstractDataType>)
        ensures
            follows(
                r,
                |a: AbstractDataType| a@,
                sequence_step::<L>(
                    old(self).state(),
                    nodes_view(old(code_gen_context).nested_types@),
                    parent_isl_type@,
                ),
                final(self).state(),
                nodes_view(final(code_gen_context).nested_types@),
            ),
        decreases parent_isl_type, 1nat,
    {
        let ghost cs = parent_isl_type@.constraints;
        let ghost whole = sequence_parts_step::<L>(
            self.state(),
            cs,
            nodes_view(code_gen_context.nested_types@),
            false,
            sequence_parts_view(None, None, false),
        );
        let mut sequence_builder = SequenceBuilder::default();
        sequence_builder.source(parent_isl_type.copy());
        let ghost mut found_type = false;
        assert(cs.subrange(0, cs.len() as int) =~= cs);
        let mut i: usize = 0;
        while i < parent_isl_type.constraints.len()
            invariant
                i <= parent_isl_type.constraints@.len(),
                cs.len() == parent_isl_type.constraints@.len(),
                sequence_builder.source matches Some(s) && s@ == parent_isl_type@,
                sequence_builder.doc_comment is None,
                whole == sequence_parts_step::<L>(
                    self.state(),
                    cs.subrange(i as int, cs.len() as int),
                    nodes_view(code_gen_context.nested_types@),
                    false,
                    sequence_parts_view(sequence_builder.element_type, sequence_builder.sequence_type, found_type),
                ),
            decreases parent_isl_type.constraints@.len() - i,
        {
            let ghost rest = cs.subrange(i as int, cs.len() as int);
            assert(rest[0] == cs[i as int]);
            assert(rest.subrange(1, rest.len() as int) =~= cs.subrange(i + 1, cs.len() as int));
            assert(cs[i as int] == parent_isl_type.constraints@[i as int]@);
            match &parent_isl_type.constraints[i] {
                IslConstraint::Element(isl_type_ref, _) => {
                    match self.required_type_ref_name(isl_type_ref, FieldPresence::Required, code_gen_context) {
                        Generated::Done(t) => {
                            sequence_builder.element_type(t);
                        },
                        Generated::Failed(e) => {
                            return Generated::Failed(e);
                        },
                        Generated::Unsupported => {
                            return Generated::Unsupported;
                        },
                    }
                },
                IslConstraint::Type(isl_type_ref) => {
                    let name = isl_type_ref.name();
                    if str_equals(name.as_str(), "sexp") {
                        sequence_builder.sequence_type(SequenceType::SExp);
                    } else if str_equals(name.as_str(), "list") {
                        sequence_builder.sequence_type(SequenceType::List);
                    }
                    proof {
                        found_type = true;
                    }
                },
                IslConstraint::ContainerLength(_, _) => {},
                _ => {
                    return Generated::Failed(
                        invalid_abstract_data_type_raw_error(
                            "Could not determine the abstract data type due to conflicting constraints",
                        ),
                    );
                },
            }
            i = i + 1;
        }
        match sequence_builder.build() {
            Ok(sequence) => Generated::Done(AbstractDataType::Sequence(sequence)),
            Err(e) => Generated::Failed(e.into_code_gen_error()),
        }
    }
}

/// The result of converting a type definition, as the public conversion reports it.
pub open spec fn conversion_matches(r: Result<DataModelNode, CodeGenError>, o: Outcome<crate::codegen::model::NodeSpec>) -> bool {
    match r {
        Ok(n) => o == Outcome::Done(n@),
        Err(e) => o == Outcome::<crate::codegen::model::NodeSpec>::Failed(e@),
    }
}

impl<L: Language> CodeGenerator<L> {
    /// Converts the ISL type definition `isl_type` named `isl_type_name` into a data model node:
    /// a structure for a type with `fields`, a sequence for a type with `element`, a scalar for a
    /// type with a `type` constraint that names no container type. The node is added to the
    /// store under its type reference, and the types nested in it are added to
    /// `code_gen_context`.
    ///
    /// `field_presence` is only used for variably occurring type references; for the top-level
    /// type definition it is `Required`. A nested type (`is_nested_type`) is a sequence or scalar
    /// without a name of its own.
    pub fn convert_isl_type_def_to_data_model_node(
        &mut self,
        isl_type_name: &String,
        field_presence: FieldPresence,
        isl_type: &IslType,
        code_gen_context: &mut CodeGenContext,
        is_nested_type: bool,
    ) -> (r: Result<DataModelNode, CodeGenError>)
        requires
            !(convert::<L>(
                old(self).state(),
                isl_type_name@,
                field_presence,
                isl_type@,
                nodes_view(old(code_gen_context).nested_types@),
                is_nested_type,
            ).outcome is Stopped),
        ensures
            ({
                let s = convert::<L>(
                    old(self).state(),
                    isl_type_name@,
                    field_presence,
                    isl_type@,
                    nodes_view(old(code_gen_context).nested_types@),
                    is_nested_type,
                );
                &&& conversion_matches(r, s.outcome)
                &&& final(self).state() == s.state
                &&& nodes_view(final(code_gen_context).nested_types@) == s.nested
            }),
    {
        match self.convert_node(isl_type_name, field_presence, isl_type, code_gen_context, is_nested_type) {
            Generated::Done(n) => Ok(n),
            Generated::Failed(e) => Err(e),
            Generated::Unsupported => {
                proof {
                    assert(false);
                }
                Err(invalid_abstract_data_type_raw_error(""))
            },
        }
    }

    /// Converts a type definition as [`Self::convert_isl_type_def_to_data_model_node`] does, or
    /// returns `None`, leaving the result unspecified, where that conversion does not support the
    /// type definition (a type import, a built-in type that is not supported yet, a type with
    /// neither `fields`, `element` nor a scalar `type` constraint).
    pub fn try_convert_isl_type_def_to_data_model_node(
        &mut self,
        isl_type_name: &String,
        field_presence: FieldPresence,
        isl_type: &IslType,
        code_gen_context: &mut CodeGenContext,
        is_nested_type: bool,
    ) -> (r: Option<Result<DataModelNode, CodeGenError>>)
        ensures
            ({
                let s = convert::<L>(
                    old(self).state(),
                    isl_type_name@,
                    field_presence,
                    isl_type@,
                    nodes_view(old(code_gen_context).nested_types@),
                    is_nested_type,
                );
                &&& r is None <==> s.outcome is Stopped
                &&& r matches Some(res) ==> conversion_matches(res, s.outcome)
                &&& final(self).state() == s.state
                &&& nodes_view(final(code_gen_context).nested_types@) == s.nested
            }),
    {
        match self.convert_node(isl_type_name, field_presence, isl_type, code_gen_context, is_nested_type) {
            Generated::Done(n) => Some(Ok(n)),
            Generated::Failed(e) => Some(Err(e)),
            Generated::Unsupported => None,
        }
    }
}

/// The values of a list of type definitions.
pub open spec fn isl_types_view(ts: Seq<IslType>) -> Seq<crate::codegen::isl::TypeSpec> {
    ts.map_values(|t: IslType| t@)
}

impl<L: Language> CodeGenerator<L> {
    /// Generates the data models of the top-level type definitions of a schema, in order, and
    /// returns them; `None` where generation does not support a definition (one without a name
    /// among them).
    pub fn generate(&mut self, types: &Vec<IslType>) -> (r: Option<Result<Vec<DataModelNode>, CodeGenError>>)
        ensures
            ({
                let (o, g) = generate_all::<L>(old(self).state(), isl_types_view(types@));
                &&& final(self).state() == g
                &&& match o {
                    Outcome::Done(ns) => r matches Some(Ok(v)) && nodes_view(v@) == ns,
                    Outcome::Failed(e) => r matches Some(Err(x)) && x@ == e,
                    Outcome::Stopped => r is None,
                }
            }),
    {
        let ghost tv = isl_types_view(types@);
        let ghost whole = generate_all::<L>(self.state(), tv);
        let mut nodes: Vec<DataModelNode> = Vec::new();
        let mut i: usize = 0;
        assert(tv.subrange(0, tv.len() as int) =~= tv);
        assert(nodes_view(nodes@) =~= Seq::<crate::codegen::model::NodeSpec>::empty());
        while i < types.len()
            invariant
                i <= types@.len(),
                tv == isl_types_view(types@),
                tv.len() == types@.len(),
                whole == generate_all::<L>(old(self).state(), tv),
                ({
                    let (o, g) = generate_all::<L>(self.state(), tv.subrange(i as int, tv.len() as int));
                    whole == (after_generated(nodes_view(nodes@), o), g)
                }),
            decreases types@.len() - i,
        {
            let ghost rest = tv.subrange(i as int, tv.len() as int);
            assert(rest[0] == types@[i as int]@);
            assert(rest.drop_first() =~= tv.subrange(i + 1, tv.len() as int));
            let isl_type = &types[i];
            let isl_type_name = match &isl_type.name {
                Some(n) => n,
                None => {
                    return None;
                },
            };
            let mut code_gen_context = CodeGenContext::new();
            assert(nodes_view(code_gen_context.nested_types@) =~= Seq::empty());
            let node = match self.convert_node(
                isl_type_name,
                FieldPresence::Required,
                isl_type,
                &mut code_gen_context,
                false,
            ) {
                Generated::Done(n) => n,
                Generated::Failed(e) => {
                    return Some(Err(e));
                },
                Generated::Unsupported => {
                    return None;
                },
            };
            let ghost ns = strings_view(self.current_type_fully_qualified_name@);
            let _ = self.current_type_fully_qualified_name.pop();
            assert(strings_view(self.current_type_fully_qualified_name@) =~= pop_namespace(ns));
            let ghost before = nodes_view(nodes@);
            let ghost nv = node@;
            nodes.push(node);
            assert(nodes_view(nodes@) =~= before.push(nv));
            proof {
                let (o, g) = generate_all::<L>(self.state(), tv.subrange(i + 1, tv.len() as int));
                assert(before + (seq![nv] + match o { Outcome::Done(x) => x, _ => Seq::empty() })
                    =~= before.push(nv) + match o { Outcome::Done(x) => x, _ => Seq::empty() });
            }
            i = i + 1;
        }
        assert(nodes_view(nodes@) + Seq::<crate::codegen::model::NodeSpec>::empty() =~= nodes_view(nodes@));
        Some(Ok(nodes))
    }
}

} // verus!
