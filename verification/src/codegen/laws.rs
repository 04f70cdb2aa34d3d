//! What code generation keeps from step to step: the namespace, the counter of nested type
//! names, and the store of generated types.
use vstd::prelude::*;

use crate::codegen::isl::{ConstraintSpec, IslFieldSpec, TypeRefSpec, TypeSpec};
use crate::codegen::model::{adt_type_ref, FieldPresence, FieldSpec, NodeSpec, TypeReference};
use crate::codegen::spec::{
    adt_step, convert, fields_step, generate_all, pop_namespace, has_element, has_fields, has_scalar_type, nested_step, reference_step,
    required_reference_step, scalar_base_step, scalar_step, sequence_parts_step, sequence_step,
    store_index, store_insert, structure_parts_step, structure_step, unique_reference_step,
    wrapped_scalar_step, wrapped_sequence_step, GenState, Outcome, SequenceParts, StructureParts,
};
use crate::codegen::utils::{upper_camel_case, JavaLanguage, Language, RustLanguage, SchemaTypeSpec};
use crate::codegen::spec::nested_type_name;
use crate::text::lemma_decimal_injective;

verus! {

/// Whether no two entries of the store have the same type reference.
pub open spec fn keys_unique(store: Seq<(TypeReference, NodeSpec)>) -> bool {
    forall|i: int, j: int| 0 <= i < j < store.len() ==> store[i].0 != store[j].0
}

/// Whether the store associates the type reference `k` with `v`.
pub open spec fn stored(store: Seq<(TypeReference, NodeSpec)>, k: TypeReference, v: NodeSpec) -> bool {
    store_index(store, k) >= 0 && store[store_index(store, k)] == (k, v)
}

/// What a step keeps of the state `g` in the state `h` after it: the counter never goes back,
/// and a store without repeated type references stays so.
pub open spec fn keeps(g: GenState, h: GenState) -> bool {
    &&& g.counter <= h.counter
    &&& keys_unique(g.store) ==> keys_unique(h.store)
}

proof fn lemma_store_index(s: Seq<(TypeReference, NodeSpec)>, k: TypeReference)
    ensures
        -1 <= store_index(s, k) < s.len(),
        store_index(s, k) >= 0 ==> s[store_index(s, k)].0 == k,
        forall|j: int| store_index(s, k) < j < s.len() ==> s[j].0 != k,
    decreases s.len(),
{
    if s.len() > 0 && s.last().0 != k {
        lemma_store_index(s.drop_last(), k);
        assert forall|j: int| store_index(s, k) < j < s.len() implies s[j].0 != k by {
            if j < s.len() - 1 {
                assert(s.drop_last()[j] == s[j]);
            }
        }
    }
}

/// Associating `k` with `v` keeps the store free of repeated type references, and afterwards
/// the store associates `k` with `v`.
proof fn lemma_store_insert(s: Seq<(TypeReference, NodeSpec)>, k: TypeReference, v: NodeSpec)
    ensures
        keys_unique(s) ==> keys_unique(store_insert(s, k, v)),
        store_index(store_insert(s, k, v), k) >= 0,
        store_insert(s, k, v)[store_index(store_insert(s, k, v), k)] == (k, v),
{
    lemma_store_index(s, k);
    let t = store_insert(s, k, v);
    lemma_store_index(t, k);
    let i = store_index(s, k);
    if i >= 0 {
        assert forall|a: int| 0 <= a < t.len() implies t[a].0 == s[a].0 by {}
        assert(t[i].0 == k);
        let j = store_index(t, k);
        if j != i {
            if j < i {
                assert(t[i].0 != k);
            } else {
                assert(s[j].0 != k);
            }
        }
    } else {
        assert(t.last() == (k, v));
        assert forall|a: int, b: int| keys_unique(s) && 0 <= a < b < t.len() implies t[a].0 != t[b].0 by {
            if b == s.len() {
                assert(s[a].0 != k);
            } else {
                assert(t[a] == s[a] && t[b] == s[b]);
            }
        }
    }
}

/// What every step keeps, with the namespace it leaves on success.
pub open spec fn kept_with_namespace<T>(g: GenState, h: GenState, outcome: Outcome<T>, ns: Seq<Seq<char>>) -> bool {
    &&& keeps(g, h)
    &&& outcome is Done ==> h.namespace == ns
}

proof fn lemma_adt<L: Language>(g: GenState, ctx: Seq<NodeSpec>, t: TypeSpec, is_nested: bool)
    ensures
        ({
            let s = adt_step::<L>(g, ctx, t, is_nested);
            kept_with_namespace(g, s.state, s.outcome, g.namespace)
        }),
    decreases t, 1nat,
{
    let cs = t.constraints;
    if has_fields(cs) {
        lemma_structure::<L>(g, ctx, t);
    } else if has_element(cs) {
        if is_nested {
            lemma_sequence::<L>(g, ctx, t);
        } else {
            lemma_wrapped_sequence::<L>(g, ctx, t);
        }
    } else if has_scalar_type(cs) {
        if is_nested {
            lemma_scalar::<L>(g, ctx, t);
        } else {
            lemma_wrapped_scalar::<L>(g, ctx, t);
        }
    }
}

proof fn lemma_convert<L: Language>(
    g: GenState,
    name: Seq<char>,
    presence: FieldPresence,
    t: TypeSpec,
    ctx: Seq<NodeSpec>,
    is_nested: bool,
)
    ensures
        ({
            let s = convert::<L>(g, name, presence, t, ctx, is_nested);
            &&& kept_with_namespace(g, s.state, s.outcome, g.namespace.push(upper_camel_case(name)))
            &&& s.outcome matches Outcome::Done(node) ==> node.code_gen_type matches Some(adt)
                && stored(s.state.store, adt_type_ref::<L>(adt), node)
        }),
    decreases t, 2nat,
{
    let g1 = GenState { namespace: g.namespace.push(upper_camel_case(name)), ..g };
    lemma_adt::<L>(g1, ctx, t, is_nested);
    let built = adt_step::<L>(g1, ctx, t, is_nested);
    match built.outcome {
        Outcome::Done(adt) => {
            let node = NodeSpec { name: upper_camel_case(name), code_gen_type: Some(adt), nested_types: built.nested };
            lemma_store_insert(built.state.store, adt_type_ref::<L>(adt), node);
        },
        _ => {},
    }
}

proof fn lemma_nested<L: Language>(
    g: GenState,
    name: Seq<char>,
    t: TypeSpec,
    presence: FieldPresence,
    ctx: Seq<NodeSpec>,
)
    ensures
        ({
            let s = nested_step::<L>(g, name, t, presence, ctx);
            kept_with_namespace(g, s.state, s.outcome, g.namespace)
        }),
    decreases t, 3nat,
{
    lemma_convert::<L>(g, name, presence, t, Seq::empty(), true);
    let c = convert::<L>(g, name, presence, t, Seq::empty(), true);
    if c.outcome is Done {
        assert(c.state.namespace.drop_last() =~= g.namespace);
    }
}

proof fn lemma_reference<L: Language>(g: GenState, r: TypeRefSpec, presence: FieldPresence, ctx: Seq<NodeSpec>)
    ensures
        ({
            let s = reference_step::<L>(g, r, presence, ctx);
            kept_with_namespace(g, s.state, s.outcome, g.namespace)
        }),
    decreases r, 0nat,
{
    match r {
        TypeRefSpec::Anonymous(def) => {
            if g.counter + 1 <= usize::MAX {
                let g1 = GenState { counter: g.counter + 1, ..g };
                lemma_nested::<L>(g1, crate::codegen::spec::nested_type_name(g.counter + 1), def, presence, ctx);
            }
        },
        _ => {},
    }
}

proof fn lemma_required<L: Language>(g: GenState, r: TypeRefSpec, presence: FieldPresence, ctx: Seq<NodeSpec>)
    ensures
        ({
            let s = required_reference_step::<L>(g, r, presence, ctx);
            kept_with_namespace(g, s.state, s.outcome, g.namespace)
        }),
    decreases r, 1nat,
{
    lemma_reference::<L>(g, r, presence, ctx);
}

proof fn lemma_unique<L: Language>(
    g: GenState,
    found: bool,
    kind: Seq<char>,
    r: TypeRefSpec,
    presence: FieldPresence,
    ctx: Seq<NodeSpec>,
)
    ensures
        ({
            let s = unique_reference_step::<L>(g, found, kind, r, presence, ctx);
            kept_with_namespace(g, s.state, s.outcome, g.namespace)
        }),
    decreases r, 2nat,
{
    if !found {
        lemma_required::<L>(g, r, presence, ctx);
    }
}

proof fn lemma_fields<L: Language>(g: GenState, fs: Seq<IslFieldSpec>, ctx: Seq<NodeSpec>, acc: Seq<FieldSpec>)
    ensures
        ({
            let s = fields_step::<L>(g, fs, ctx, acc);
            kept_with_namespace(g, s.state, s.outcome, g.namespace)
        }),
    decreases fs, 0nat,
{
    if fs.len() > 0 {
        let f = fs[0];
        match crate::codegen::spec::presence_of(f.occurs_min, f.occurs_max) {
            Some(presence) => {
                lemma_reference::<L>(g, f.type_ref, presence, ctx);
                let s = reference_step::<L>(g, f.type_ref, presence, ctx);
                match s.outcome {
                    Outcome::Done(Some(t)) => {
                        lemma_fields::<L>(
                            s.state,
                            fs.subrange(1, fs.len() as int),
                            s.nested,
                            crate::codegen::spec::fields_insert(acc, FieldSpec { name: f.name, type_ref: t, presence }),
                        );
                    },
                    _ => {},
                }
            },
            None => {},
        }
    }
}

proof fn lemma_structure_parts<L: Language>(
    g: GenState,
    cs: Seq<ConstraintSpec>,
    ctx: Seq<NodeSpec>,
    acc: StructureParts,
)
    ensures
        ({
            let s = structure_parts_step::<L>(g, cs, ctx, acc);
            kept_with_namespace(g, s.state, s.outcome, g.namespace)
        }),
    decreases cs, 0nat,
{
    if cs.len() > 0 {
        let rest = cs.subrange(1, cs.len() as int);
        match cs[0] {
            ConstraintSpec::Fields(fs, closed) => {
                lemma_fields::<L>(g, fs, ctx, Seq::empty());
                let s = fields_step::<L>(g, fs, ctx, Seq::empty());
                match s.outcome {
                    Outcome::Done(fields) => {
                        lemma_structure_parts::<L>(
                            s.state,
                            rest,
                            s.nested,
                            StructureParts { fields: Some(fields), is_closed: Some(closed) },
                        );
                    },
                    _ => {},
                }
            },
            ConstraintSpec::Type(_) => {
                lemma_structure_parts::<L>(g, rest, ctx, StructureParts { is_closed: Some(false), ..acc });
            },
            _ => {},
        }
    }
}

proof fn lemma_structure<L: Language>(g: GenState, ctx: Seq<NodeSpec>, t: TypeSpec)
    ensures
        ({
            let s = structure_step::<L>(g, ctx, t);
            kept_with_namespace(g, s.state, s.outcome, g.namespace)
        }),
    decreases t, 0nat,
{
    lemma_structure_parts::<L>(g, t.constraints, ctx, StructureParts { fields: None, is_closed: None });
}

proof fn lemma_scalar_base<L: Language>(
    g: GenState,
    cs: Seq<ConstraintSpec>,
    ctx: Seq<NodeSpec>,
    allow_length: bool,
    acc: Option<TypeReference>,
)
    ensures
        ({
            let s = scalar_base_step::<L>(g, cs, ctx, allow_length, acc);
            kept_with_namespace(g, s.state, s.outcome, g.namespace)
        }),
    decreases cs, 0nat,
{
    if cs.len() > 0 {
        let rest = cs.subrange(1, cs.len() as int);
        match cs[0] {
            ConstraintSpec::Type(r) => {
                lemma_unique::<L>(g, acc is Some, "type"@, r, FieldPresence::Required, ctx);
                let s = unique_reference_step::<L>(g, acc is Some, "type"@, r, FieldPresence::Required, ctx);
                match s.outcome {
                    Outcome::Done(t) => {
                        lemma_scalar_base::<L>(s.state, rest, s.nested, allow_length, Some(t));
                    },
                    _ => {},
                }
            },
            ConstraintSpec::ContainerLength(_, _) => {
                if allow_length {
                    lemma_scalar_base::<L>(g, rest, ctx, allow_length, acc);
                }
            },
            _ => {},
        }
    }
}

proof fn lemma_wrapped_scalar<L: Language>(g: GenState, ctx: Seq<NodeSpec>, t: TypeSpec)
    ensures
        ({
            let s = wrapped_scalar_step::<L>(g, ctx, t);
            kept_with_namespace(g, s.state, s.outcome, g.namespace)
        }),
    decreases t, 0nat,
{
    lemma_scalar_base::<L>(g, t.constraints, ctx, true, None);
}

proof fn lemma_scalar<L: Language>(g: GenState, ctx: Seq<NodeSpec>, t: TypeSpec)
    ensures
        ({
            let s = scalar_step::<L>(g, ctx, t);
            kept_with_namespace(g, s.state, s.outcome, g.namespace)
        }),
    decreases t, 0nat,
{
    lemma_scalar_base::<L>(g, t.constraints, ctx, false, None);
}

proof fn lemma_sequence_parts<L: Language>(
    g: GenState,
    cs: Seq<ConstraintSpec>,
    ctx: Seq<NodeSpec>,
    wrapped: bool,
    acc: SequenceParts,
)
    ensures
        ({
            let s = sequence_parts_step::<L>(g, cs, ctx, wrapped, acc);
            kept_with_namespace(g, s.state, s.outcome, g.namespace)
        }),
    decreases cs, 0nat,
{
    if cs.len() > 0 {
        let rest = cs.subrange(1, cs.len() as int);
        match cs[0] {
            ConstraintSpec::Element(r, _) => {
                let s = if wrapped {
                    lemma_unique::<L>(g, acc.element_type is Some, "type"@, r, FieldPresence::Required, ctx);
                    unique_reference_step::<L>(g, acc.element_type is Some, "type"@, r, FieldPresence::Required, ctx)
                } else {
                    lemma_required::<L>(g, r, FieldPresence::Required, ctx);
                    required_reference_step::<L>(g, r, FieldPresence::Required, ctx)
                };
                match s.outcome {
                    Outcome::Done(t) => {
                        lemma_sequence_parts::<L>(
                            s.state,
                            rest,
                            s.nested,
                            wrapped,
                            SequenceParts { element_type: Some(t), ..acc },
                        );
                    },
                    _ => {},
                }
            },
            ConstraintSpec::Type(r) => {
                if !(wrapped && acc.found_type) {
                    let seq_type = match crate::codegen::spec::sequence_type_of(r) {
                        Some(st) => Some(st),
                        None => acc.sequence_type,
                    };
                    lemma_sequence_parts::<L>(
                        g,
                        rest,
                        ctx,
                        wrapped,
                        SequenceParts { sequence_type: seq_type, found_type: true, ..acc },
                    );
                }
            },
            ConstraintSpec::ContainerLength(_, _) => {
                lemma_sequence_parts::<L>(g, rest, ctx, wrapped, acc);
            },
            _ => {},
        }
    }
}

proof fn lemma_wrapped_sequence<L: Language>(g: GenState, ctx: Seq<NodeSpec>, t: TypeSpec)
    ensures
        ({
            let s = wrapped_sequence_step::<L>(g, ctx, t);
            kept_with_namespace(g, s.state, s.outcome, g.namespace)
        }),
    decreases t, 0nat,
{
    lemma_sequence_parts::<L>(g, t.constraints, ctx, true, crate::codegen::spec::empty_sequence_parts());
}

proof fn lemma_sequence<L: Language>(g: GenState, ctx: Seq<NodeSpec>, t: TypeSpec)
    ensures
        ({
            let s = sequence_step::<L>(g, ctx, t);
            kept_with_namespace(g, s.state, s.outcome, g.namespace)
        }),
    decreases t, 0nat,
{
    lemma_sequence_parts::<L>(g, t.constraints, ctx, false, crate::codegen::spec::empty_sequence_parts());
}

/// Converting a type definition adds the type's name, in upper camel case, to the namespace:
/// the types nested in it are generated inside that namespace and give it back as they found it.
pub proof fn law_conversion_extends_namespace<L: Language>(
    g: GenState,
    name: Seq<char>,
    presence: FieldPresence,
    t: TypeSpec,
    ctx: Seq<NodeSpec>,
    is_nested: bool,
)
    requires
        convert::<L>(g, name, presence, t, ctx, is_nested).outcome is Done,
    ensures
        convert::<L>(g, name, presence, t, ctx, is_nested).state.namespace == g.namespace.push(
            upper_camel_case(name),
        ),
{
    lemma_convert::<L>(g, name, presence, t, ctx, is_nested);
}

/// Generating a nested type leaves the namespace as it was before.
pub proof fn law_nested_type_restores_namespace<L: Language>(
    g: GenState,
    name: Seq<char>,
    t: TypeSpec,
    presence: FieldPresence,
    ctx: Seq<NodeSpec>,
)
    requires
        nested_step::<L>(g, name, t, presence, ctx).outcome is Done,
    ensures
        nested_step::<L>(g, name, t, presence, ctx).state.namespace == g.namespace,
{
    lemma_nested::<L>(g, name, t, presence, ctx);
}

/// The counter that names nested types never goes back, whatever the conversion's outcome, so
/// no two nested types get the same name.
pub proof fn law_nested_type_counter_never_decreases<L: Language>(
    g: GenState,
    name: Seq<char>,
    presence: FieldPresence,
    t: TypeSpec,
    ctx: Seq<NodeSpec>,
    is_nested: bool,
)
    ensures
        g.counter <= convert::<L>(g, name, presence, t, ctx, is_nested).state.counter,
{
    lemma_convert::<L>(g, name, presence, t, ctx, is_nested);
}

/// A store that holds each type reference at most once still does so after a conversion.
pub proof fn law_store_keeps_references_unique<L: Language>(
    g: GenState,
    name: Seq<char>,
    presence: FieldPresence,
    t: TypeSpec,
    ctx: Seq<NodeSpec>,
    is_nested: bool,
)
    requires
        keys_unique(g.store),
    ensures
        keys_unique(convert::<L>(g, name, presence, t, ctx, is_nested).state.store),
{
    lemma_convert::<L>(g, name, presence, t, ctx, is_nested);
}

/// A converted type definition is found in the store under the type reference of its abstract
/// data type.
pub proof fn law_converted_node_is_stored<L: Language>(
    g: GenState,
    name: Seq<char>,
    presence: FieldPresence,
    t: TypeSpec,
    ctx: Seq<NodeSpec>,
    is_nested: bool,
)
    requires
        convert::<L>(g, name, presence, t, ctx, is_nested).outcome is Done,
    ensures
        ({
            let s = convert::<L>(g, name, presence, t, ctx, is_nested);
            s.outcome matches Outcome::Done(node) && node.code_gen_type matches Some(adt) && stored(
                s.state.store,
                adt_type_ref::<L>(adt),
                node,
            )
        }),
{
    lemma_convert::<L>(g, name, presence, t, ctx, is_nested);
}

/// Generating the data models of a schema's type definitions leaves the namespace as it was
/// before (for Java, the package of the generated code), and keeps each type reference at most
/// once in the store.
pub proof fn law_generation_restores_namespace<L: Language>(g: GenState, types: Seq<TypeSpec>)
    requires
        generate_all::<L>(g, types).0 is Done,
    ensures
        generate_all::<L>(g, types).1.namespace == g.namespace,
        keys_unique(g.store) ==> keys_unique(generate_all::<L>(g, types).1.store),
    decreases types.len(),
{
    if types.len() > 0 {
        match types[0].name {
            Some(name) => {
                lemma_convert::<L>(g, name, FieldPresence::Required, types[0], Seq::empty(), false);
                let c = convert::<L>(g, name, FieldPresence::Required, types[0], Seq::empty(), false);
                if c.outcome is Done {
                    let g1 = GenState { namespace: pop_namespace(c.state.namespace), ..c.state };
                    assert(g1.namespace =~= g.namespace);
                    law_generation_restores_namespace::<L>(g1, types.drop_first());
                }
            },
            None => {},
        }
    }
}

/// Nested types numbered differently get different names, so the names that successive calls
/// give, each with the counter one higher than the last, never repeat.
pub proof fn law_nested_type_names_differ(m: nat, n: nat)
    requires
        m != n,
    ensures
        nested_type_name(m) != nested_type_name(n),
{
    reveal_strlit("NestedType");
    if nested_type_name(m) == nested_type_name(n) {
        let k = "NestedType"@.len() as int;
        assert(nested_type_name(m).subrange(k, nested_type_name(m).len() as int) =~= crate::text::decimal(m));
        assert(nested_type_name(n).subrange(k, nested_type_name(n).len() as int) =~= crate::text::decimal(n));
        lemma_decimal_injective(m, n);
    }
}

/// Every built-in scalar type of Ion Schema maps to a built-in type of the target language, and
/// only containers map to none. Ion integers become `i64` in Rust and `int` in Java; Ion floats,
/// which are 64-bit, become the 64-bit `f64` in Rust and `double` in Java.
pub proof fn law_scalar_types_map_to_built_in_types(t: SchemaTypeSpec)
    ensures
        !(t is SchemaDefined) ==> match RustLanguage::spec_target_type(t) {
            Some(n) => RustLanguage::spec_is_built_in_type(n),
            None => t is List || t is SExp || t is Struct,
        },
        !(t is SchemaDefined) ==> match JavaLanguage::spec_target_type(t) {
            Some(n) => JavaLanguage::spec_is_built_in_type(n),
            None => t is List || t is SExp || t is Struct,
        },
        t is Int ==> RustLanguage::spec_target_type(t) == Some("i64"@) && JavaLanguage::spec_target_type(t) == Some(
            "int"@,
        ),
        t is Float ==> RustLanguage::spec_target_type(t) == Some("f64"@) && JavaLanguage::spec_target_type(t)
            == Some("double"@),
{
}

} // verus!
