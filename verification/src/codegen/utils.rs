//! Target languages of code generation, templates, and ISL built-in types.
use vstd::prelude::*;

use convert_case::{Case, Casing};

use crate::codegen::model::{named_type, FullyQualifiedTypeReference, TypeReference};
use crate::codegen::result::{invalid_data_model, CodeGenError, CodeGenErrorSpec};
use crate::text::{copy_string, join, join_strings, str_equals, strings_view};

verus! {

/// The text that `convert_case` produces for `text` in upper camel case.
pub uninterp spec fn upper_camel_case(text: Seq<char>) -> Seq<char>;

/// The text that `convert_case` produces for `text` in lower camel case.
pub uninterp spec fn camel_case(text: Seq<char>) -> Seq<char>;

/// The text that `convert_case` produces for `text` in snake case.
pub uninterp spec fn snake_case(text: Seq<char>) -> Seq<char>;

/// Calls `convert_case`'s `to_case(Case::UpperCamel)` on `text`.
#[verifier::external_body]
pub(crate) fn to_upper_camel_case(text: &str) -> (r: String)
    ensures
        r@ == upper_camel_case(text@),
{
    text.to_case(Case::UpperCamel)
}

/// Calls `convert_case`'s `to_case(Case::Camel)` on `text`.
#[verifier::external_body]
pub(crate) fn to_camel_case(text: &str) -> (r: String)
    ensures
        r@ == camel_case(text@),
{
    text.to_case(Case::Camel)
}

/// Calls `convert_case`'s `to_case(Case::Snake)` on `text`.
#[verifier::external_body]
pub(crate) fn to_snake_case(text: &str) -> (r: String)
    ensures
        r@ == snake_case(text@),
{
    text.to_case(Case::Snake)
}

/// An Ion Schema type: one of the built-in types that code generation supports, or a type
/// defined by the schema (by its name in upper camel case).
#[derive(Debug, PartialEq)]
pub enum IonSchemaType {
    Int,
    String,
    Symbol,
    Float,
    Bool,
    Blob,
    Clob,
    SExp,
    List,
    Struct,
    SchemaDefined(String),
}

/// The value of an [`IonSchemaType`].
pub enum SchemaTypeSpec {
    Int,
    String,
    Symbol,
    Float,
    Bool,
    Blob,
    Clob,
    SExp,
    List,
    Struct,
    SchemaDefined(Seq<char>),
}

impl View for IonSchemaType {
    type V = SchemaTypeSpec;

    open spec fn view(&self) -> SchemaTypeSpec {
        match self {
            IonSchemaType::Int => SchemaTypeSpec::Int,
            IonSchemaType::String => SchemaTypeSpec::String,
            IonSchemaType::Symbol => SchemaTypeSpec::Symbol,
            IonSchemaType::Float => SchemaTypeSpec::Float,
            IonSchemaType::Bool => SchemaTypeSpec::Bool,
            IonSchemaType::Blob => SchemaTypeSpec::Blob,
            IonSchemaType::Clob => SchemaTypeSpec::Clob,
            IonSchemaType::SExp => SchemaTypeSpec::SExp,
            IonSchemaType::List => SchemaTypeSpec::List,
            IonSchemaType::Struct => SchemaTypeSpec::Struct,
            IonSchemaType::SchemaDefined(n) => SchemaTypeSpec::SchemaDefined(n@),
        }
    }
}

/// Names of built-in types that code generation maps directly.
pub open spec fn is_simple_builtin_name(v: Seq<char>) -> bool {
    v == "int"@ || v == "string"@ || v == "symbol"@ || v == "float"@ || v == "bool"@ || v == "blob"@
        || v == "clob"@
}

/// Names for which code generation reports the type as not supported yet by stopping.
pub open spec fn is_unsupported_builtin_name(v: Seq<char>) -> bool {
    v == "number"@ || v == "text"@ || v == "lob"@ || v == "document"@ || v == "nothing"@ || v
        == "decimal"@ || v == "timestamp"@
}

/// Whether mapping the type name `v` to an [`IonSchemaType`] stops the program: the name is not a
/// simple built-in name, and it is empty, starts with a character that takes more than one byte
/// in UTF-8 (its first byte is then no character boundary), starts with `$` (types with nulls),
/// or names a built-in type that is not supported yet.
pub open spec fn schema_ty_name_unsupported(v: Seq<char>) -> bool {
    !is_simple_builtin_name(v) && (v.len() == 0 || v[0] as u32 >= 128 || v[0] == '$'
        || is_unsupported_builtin_name(v))
}

/// The Ion Schema type that the type name `v` stands for.
pub open spec fn schema_type_of_name(v: Seq<char>) -> SchemaTypeSpec {
    if v == "int"@ {
        SchemaTypeSpec::Int
    } else if v == "string"@ {
        SchemaTypeSpec::String
    } else if v == "symbol"@ {
        SchemaTypeSpec::Symbol
    } else if v == "float"@ {
        SchemaTypeSpec::Float
    } else if v == "bool"@ {
        SchemaTypeSpec::Bool
    } else if v == "blob"@ {
        SchemaTypeSpec::Blob
    } else if v == "clob"@ {
        SchemaTypeSpec::Clob
    } else if v == "struct"@ {
        SchemaTypeSpec::Struct
    } else if v == "list"@ {
        SchemaTypeSpec::List
    } else if v == "sexp"@ {
        SchemaTypeSpec::SExp
    } else {
        SchemaTypeSpec::SchemaDefined(upper_camel_case(v))
    }
}

/// Whether mapping the type name `value` to an [`IonSchemaType`] is not supported.
pub fn is_unsupported_type_name(value: &str) -> (r: bool)
    ensures
        r == schema_ty_name_unsupported(value@),
{
    if str_equals(value, "int") || str_equals(value, "string") || str_equals(value, "symbol")
        || str_equals(value, "float") || str_equals(value, "bool") || str_equals(value, "blob")
        || str_equals(value, "clob") {
        return false;
    }
    let n = value.unicode_len();
    if n == 0 {
        return true;
    }
    let c = value.get_char(0);
    (c as u32) >= 128 || c == '$' || str_equals(value, "number") || str_equals(value, "text")
        || str_equals(value, "lob") || str_equals(value, "document") || str_equals(value, "nothing")
        || str_equals(value, "decimal") || str_equals(value, "timestamp")
}

impl IonSchemaType {
    /// Maps an ISL type name to an Ion Schema type. Any name that is not a supported built-in
    /// type is a schema-defined type, named in upper camel case.
    /// Maps an ISL type name to an Ion Schema type, or `None` where the mapping is not supported.
    pub fn try_from_name(value: &str) -> (r: Option<IonSchemaType>)
        ensures
            match r {
                Some(t) => !schema_ty_name_unsupported(value@) && t@ == schema_type_of_name(value@),
                None => schema_ty_name_unsupported(value@),
            },
    {
        if is_unsupported_type_name(value) {
            None
        } else {
            Some(IonSchemaType::from_name(value))
        }
    }

    pub fn from_name(value: &str) -> (r: IonSchemaType)
        requires
            !schema_ty_name_unsupported(value@),
        ensures
            r@ == schema_type_of_name(value@),
    {
        if str_equals(value, "int") {
            IonSchemaType::Int
        } else if str_equals(value, "string") {
            IonSchemaType::String
        } else if str_equals(value, "symbol") {
            IonSchemaType::Symbol
        } else if str_equals(value, "float") {
            IonSchemaType::Float
        } else if str_equals(value, "bool") {
            IonSchemaType::Bool
        } else if str_equals(value, "blob") {
            IonSchemaType::Blob
        } else if str_equals(value, "clob") {
            IonSchemaType::Clob
        } else if str_equals(value, "struct") {
            IonSchemaType::Struct
        } else if str_equals(value, "list") {
            IonSchemaType::List
        } else if str_equals(value, "sexp") {
            IonSchemaType::SExp
        } else {
            IonSchemaType::SchemaDefined(to_upper_camel_case(value))
        }
    }
}

/// The templates that code generation renders.
#[derive(Debug, PartialEq, Eq, Clone, Copy, Structural)]
pub enum Template {
    /// A Rust struct or Java class for an Ion struct value.
    Struct,
    /// A Rust struct or Java class for an Ion sequence value.
    Sequence,
    /// A Rust struct or Java class for an Ion scalar value.
    Scalar,
}

/// A target programming language of code generation.
pub trait Language {
    spec fn spec_file_extension() -> Seq<char>;

    spec fn spec_name() -> Seq<char>;

    spec fn spec_file_name_for_type(name: Seq<char>) -> Seq<char>;

    spec fn spec_target_type(t: SchemaTypeSpec) -> Option<Seq<char>>;

    spec fn spec_target_type_as_sequence(t: TypeReference) -> TypeReference;

    spec fn spec_target_type_as_optional(t: TypeReference) -> TypeReference;

    spec fn spec_is_built_in_type(name: Seq<char>) -> bool;

    spec fn spec_namespace_separator() -> Seq<char>;

    spec fn spec_template_name(template: Template) -> Seq<char>;

    /// The file extension of generated code.
    fn file_extension() -> (r: String)
        ensures
            r@ == Self::spec_file_extension(),
    ;

    /// The name of the language.
    fn name() -> (r: String)
        ensures
            r@ == Self::spec_name(),
    ;

    /// The file name of the generated code for the type `name`, following the language's
    /// conventions.
    fn file_name_for_type(name: &str) -> (r: String)
        ensures
            r@ == Self::spec_file_name_for_type(name@),
    ;

    /// The name of the target type for an ISL type; `None` for container types.
    fn target_type(ion_schema_type: &IonSchemaType) -> (r: Option<String>)
        ensures
            match r {
                Some(s) => Self::spec_target_type(ion_schema_type@) == Some(s@),
                None => Self::spec_target_type(ion_schema_type@) is None,
            },
    ;

    /// The target type that holds a sequence of `target_type` values.
    fn target_type_as_sequence(target_type: FullyQualifiedTypeReference) -> (r: FullyQualifiedTypeReference)
        ensures
            r@ == Self::spec_target_type_as_sequence(target_type@),
    ;

    /// The target type that holds an optional `target_type` value.
    fn target_type_as_optional(target_type: FullyQualifiedTypeReference) -> (r: FullyQualifiedTypeReference)
        ensures
            r@ == Self::spec_target_type_as_optional(target_type@),
    ;

    /// Whether the named type is provided by the language itself.
    fn is_built_in_type(ty_name: String) -> (r: bool)
        ensures
            r == Self::spec_is_built_in_type(ty_name@),
    ;

    /// The separator between the parts of a fully qualified name.
    fn namespace_separator() -> (r: &'static str)
        ensures
            r@ == Self::spec_namespace_separator(),
    ;

    /// The name of the template file (without extension) for `template`.
    fn template_name(template: &Template) -> (r: String)
        ensures
            r@ == Self::spec_template_name(*template),
    ;

    /// The fully qualified name of a type reference, its parts joined by the namespace separator.
    fn fully_qualified_type_ref(name: &FullyQualifiedTypeReference) -> (r: String)
        ensures
            r@ == join(name@.qualified_name, Self::spec_namespace_separator()),
    {
        join_strings(&name.qualified_name, Self::namespace_separator())
    }

    /// Adds the type `ty_name` (in upper camel case) to the current namespace.
    fn add_type_to_namespace(is_nested_type: bool, ty_name: &str, namespace: &mut Vec<String>)
        ensures
            strings_view(final(namespace)@) == strings_view(old(namespace)@).push(
                upper_camel_case(ty_name@),
            ),
    {
        let name = to_upper_camel_case(ty_name);
        namespace.push(name);
        assert(strings_view(namespace@) =~= strings_view(old(namespace)@).push(upper_camel_case(ty_name@)));
    }
}

/// The wrapper class of a Java primitive type.
pub open spec fn java_wrapper_class(primitive: Seq<char>) -> Option<Seq<char>> {
    if primitive == "int"@ {
        Some("Integer"@)
    } else if primitive == "boolean"@ {
        Some("Boolean"@)
    } else if primitive == "double"@ {
        Some("Double"@)
    } else if primitive == "long"@ {
        Some("Long"@)
    } else {
        None
    }
}

/// The primitive type of a Java wrapper class; any other name is returned unchanged.
pub open spec fn java_primitive_data_type(wrapper: Seq<char>) -> Seq<char> {
    if wrapper == "Integer"@ {
        "int"@
    } else if wrapper == "Boolean"@ {
        "boolean"@
    } else if wrapper == "Double"@ {
        "double"@
    } else if wrapper == "Long"@ {
        "long"@
    } else {
        wrapper
    }
}

/// `java.util.<class>` holding `t`, or the wrapper class of `t` when `t` is a primitive type.
pub open spec fn java_generic_holder(class: Seq<char>, t: TypeReference) -> TypeReference {
    TypeReference {
        qualified_name: seq!["java"@, "util"@, class],
        parameters: match java_wrapper_class(crate::codegen::model::type_reference_text(t, "."@)) {
            Some(w) => seq![named_type(seq![w])],
            None => seq![t],
        },
    }
}

/// Builds `java.util.<class><t>`, using the wrapper class of `t` when `t` is a primitive type.
fn java_generic_holder_of(class: &str, t: FullyQualifiedTypeReference) -> (r: FullyQualifiedTypeReference)
    ensures
        r@ == java_generic_holder(class@, t@),
{
    let text = t.text_with_separator(".");
    let mut name: Vec<String> = Vec::new();
    name.push(String::from_str("java"));
    name.push(String::from_str("util"));
    name.push(String::from_str(class));
    let mut params: Vec<FullyQualifiedTypeReference> = Vec::new();
    match JavaLanguage::wrapper_class(text.as_str()) {
        Some(w) => params.push(FullyQualifiedTypeReference::simple(w)),
        None => params.push(t),
    }
    let r = FullyQualifiedTypeReference { qualified_name: name, parameters: params };
    proof {
        assert(strings_view(name@) =~= seq!["java"@, "util"@, class@]);
        assert(r@.parameters =~= java_generic_holder(class@, t@).parameters);
    }
    r
}

pub struct JavaLanguage;

impl JavaLanguage {
    /// The wrapper class of a Java primitive type, if it is one.
    pub fn wrapper_class(primitive_data_type: &str) -> (r: Option<String>)
        ensures
            match r {
                Some(s) => java_wrapper_class(primitive_data_type@) == Some(s@),
                None => java_wrapper_class(primitive_data_type@) is None,
            },
    {
        if str_equals(primitive_data_type, "int") {
            Some(String::from_str("Integer"))
        } else if str_equals(primitive_data_type, "boolean") {
            Some(String::from_str("Boolean"))
        } else if str_equals(primitive_data_type, "double") {
            Some(String::from_str("Double"))
        } else if str_equals(primitive_data_type, "long") {
            Some(String::from_str("Long"))
        } else {
            None
        }
    }

    /// The primitive data type of a Java wrapper class; other names are returned unchanged.
    pub fn primitive_data_type(wrapper_class: &str) -> (r: String)
        ensures
            r@ == java_primitive_data_type(wrapper_class@),
    {
        if str_equals(wrapper_class, "Integer") {
            String::from_str("int")
        } else if str_equals(wrapper_class, "Boolean") {
            String::from_str("boolean")
        } else if str_equals(wrapper_class, "Double") {
            String::from_str("double")
        } else if str_equals(wrapper_class, "Long") {
            String::from_str("long")
        } else {
            String::from_str(wrapper_class)
        }
    }
}

impl Language for JavaLanguage {
    open spec fn spec_file_extension() -> Seq<char> {
        "java"@
    }

    open spec fn spec_name() -> Seq<char> {
        "java"@
    }

    open spec fn spec_file_name_for_type(name: Seq<char>) -> Seq<char> {
        upper_camel_case(name)
    }

    open spec fn spec_target_type(t: SchemaTypeSpec) -> Option<Seq<char>> {
        match t {
            SchemaTypeSpec::Int => Some("int"@),
            SchemaTypeSpec::String | SchemaTypeSpec::Symbol => Some("String"@),
            SchemaTypeSpec::Float => Some("double"@),
            SchemaTypeSpec::Bool => Some("boolean"@),
            SchemaTypeSpec::Blob | SchemaTypeSpec::Clob => Some("byte[]"@),
            SchemaTypeSpec::List | SchemaTypeSpec::SExp | SchemaTypeSpec::Struct => None,
            SchemaTypeSpec::SchemaDefined(n) => Some(n),
        }
    }

    open spec fn spec_target_type_as_sequence(t: TypeReference) -> TypeReference {
        java_generic_holder("ArrayList"@, t)
    }

    open spec fn spec_target_type_as_optional(t: TypeReference) -> TypeReference {
        java_generic_holder("Optional"@, t)
    }

    open spec fn spec_is_built_in_type(name: Seq<char>) -> bool {
        name == "int"@ || name == "String"@ || name == "boolean"@ || name == "byte[]"@ || name
            == "double"@ || name == "java.util.ArrayList<String>"@ || name
            == "java.util.ArrayList<Integer>"@ || name == "java.util.ArrayList<Boolean>"@ || name
            == "java.util.ArrayList<Double>"@
    }

    open spec fn spec_namespace_separator() -> Seq<char> {
        "."@
    }

    open spec fn spec_template_name(template: Template) -> Seq<char> {
        match template {
            Template::Struct => "class"@,
            Template::Scalar => "scalar"@,
            Template::Sequence => "sequence"@,
        }
    }

    fn file_extension() -> (r: String) {
        String::from_str("java")
    }

    fn name() -> (r: String) {
        String::from_str("java")
    }

    fn file_name_for_type(name: &str) -> (r: String) {
        to_upper_camel_case(name)
    }

    fn target_type(ion_schema_type: &IonSchemaType) -> (r: Option<String>) {
        match ion_schema_type {
            IonSchemaType::Int => Some(String::from_str("int")),
            IonSchemaType::String | IonSchemaType::Symbol => Some(String::from_str("String")),
            IonSchemaType::Float => Some(String::from_str("double")),
            IonSchemaType::Bool => Some(String::from_str("boolean")),
            IonSchemaType::Blob | IonSchemaType::Clob => Some(String::from_str("byte[]")),
            IonSchemaType::List | IonSchemaType::SExp | IonSchemaType::Struct => None,
            IonSchemaType::SchemaDefined(name) => Some(copy_string(name)),
        }
    }

    fn target_type_as_sequence(target_type: FullyQualifiedTypeReference) -> (r: FullyQualifiedTypeReference) {
        java_generic_holder_of("ArrayList", target_type)
    }

    fn target_type_as_optional(target_type: FullyQualifiedTypeReference) -> (r: FullyQualifiedTypeReference) {
        java_generic_holder_of("Optional", target_type)
    }

    fn is_built_in_type(ty_name: String) -> (r: bool) {
        let t = ty_name.as_str();
        str_equals(t, "int") || str_equals(t, "String") || str_equals(t, "boolean") || str_equals(
            t,
            "byte[]",
        ) || str_equals(t, "double") || str_equals(t, "java.util.ArrayList<String>")
            || str_equals(t, "java.util.ArrayList<Integer>") || str_equals(
            t,
            "java.util.ArrayList<Boolean>",
        ) || str_equals(t, "java.util.ArrayList<Double>")
    }

    fn namespace_separator() -> (r: &'static str) {
        "."
    }

    fn template_name(template: &Template) -> (r: String) {
        match template {
            Template::Struct => String::from_str("class"),
            Template::Scalar => String::from_str("scalar"),
            Template::Sequence => String::from_str("sequence"),
        }
    }
}

pub struct RustLanguage;

impl Language for RustLanguage {
    open spec fn spec_file_extension() -> Seq<char> {
        "rs"@
    }

    open spec fn spec_name() -> Seq<char> {
        "rust"@
    }

    open spec fn spec_file_name_for_type(name: Seq<char>) -> Seq<char> {
        "ion_generated_code"@
    }

    open spec fn spec_target_type(t: SchemaTypeSpec) -> Option<Seq<char>> {
        match t {
            SchemaTypeSpec::Int => Some("i64"@),
            SchemaTypeSpec::String | SchemaTypeSpec::Symbol => Some("String"@),
            SchemaTypeSpec::Float => Some("f64"@),
            SchemaTypeSpec::Bool => Some("bool"@),
            SchemaTypeSpec::Blob | SchemaTypeSpec::Clob => Some("Vec<u8>"@),
            SchemaTypeSpec::List | SchemaTypeSpec::SExp | SchemaTypeSpec::Struct => None,
            SchemaTypeSpec::SchemaDefined(n) => Some(n),
        }
    }

    open spec fn spec_target_type_as_sequence(t: TypeReference) -> TypeReference {
        TypeReference { qualified_name: seq!["Vec"@], parameters: seq![t] }
    }

    open spec fn spec_target_type_as_optional(t: TypeReference) -> TypeReference {
        TypeReference { qualified_name: seq!["Option"@], parameters: seq![t] }
    }

    open spec fn spec_is_built_in_type(name: Seq<char>) -> bool {
        name == "i64"@ || name == "String"@ || name == "bool"@ || name == "Vec<u8>"@ || name
            == "f64"@ || name == "Vec<String>"@ || name == "Vec<i64>"@ || name == "Vec<bool>"@
            || name == "Vec<f64>"@
    }

    open spec fn spec_namespace_separator() -> Seq<char> {
        "::"@
    }

    open spec fn spec_template_name(template: Template) -> Seq<char> {
        match template {
            Template::Struct => "struct"@,
            Template::Scalar => "scalar"@,
            Template::Sequence => "sequence"@,
        }
    }

    fn file_extension() -> (r: String) {
        String::from_str("rs")
    }

    fn name() -> (r: String) {
        String::from_str("rust")
    }

    fn file_name_for_type(_name: &str) -> (r: String) {
        String::from_str("ion_generated_code")
    }

    fn target_type(ion_schema_type: &IonSchemaType) -> (r: Option<String>) {
        match ion_schema_type {
            IonSchemaType::Int => Some(String::from_str("i64")),
            IonSchemaType::String | IonSchemaType::Symbol => Some(String::from_str("String")),
            IonSchemaType::Float => Some(String::from_str("f64")),
            IonSchemaType::Bool => Some(String::from_str("bool")),
            IonSchemaType::Blob | IonSchemaType::Clob => Some(String::from_str("Vec<u8>")),
            IonSchemaType::List | IonSchemaType::SExp | IonSchemaType::Struct => None,
            IonSchemaType::SchemaDefined(name) => Some(copy_string(name)),
        }
    }

    fn target_type_as_sequence(target_type: FullyQualifiedTypeReference) -> (r: FullyQualifiedTypeReference) {
        rust_generic_holder("Vec", target_type)
    }

    fn target_type_as_optional(target_type: FullyQualifiedTypeReference) -> (r: FullyQualifiedTypeReference) {
        rust_generic_holder("Option", target_type)
    }

    fn is_built_in_type(ty_name: String) -> (r: bool) {
        let t = ty_name.as_str();
        str_equals(t, "i64") || str_equals(t, "String") || str_equals(t, "bool") || str_equals(
            t,
            "Vec<u8>",
        ) || str_equals(t, "f64") || str_equals(t, "Vec<String>") || str_equals(t, "Vec<i64>")
            || str_equals(t, "Vec<bool>") || str_equals(t, "Vec<f64>")
    }

    fn namespace_separator() -> (r: &'static str) {
        "::"
    }

    fn template_name(template: &Template) -> (r: String) {
        match template {
            Template::Struct => String::from_str("struct"),
            Template::Scalar => String::from_str("scalar"),
            Template::Sequence => String::from_str("sequence"),
        }
    }
}

/// Builds `<holder><t>`.
fn rust_generic_holder(holder: &str, t: FullyQualifiedTypeReference) -> (r: FullyQualifiedTypeReference)
    ensures
        r@ == (TypeReference { qualified_name: seq![holder@], parameters: seq![t@] }),
{
    let mut name: Vec<String> = Vec::new();
    name.push(String::from_str(holder));
    let mut params: Vec<FullyQualifiedTypeReference> = Vec::new();
    params.push(t);
    let r = FullyQualifiedTypeReference { qualified_name: name, parameters: params };
    assert(strings_view(name@) =~= seq![holder@]);
    assert(r@.parameters =~= seq![t@]);
    r
}

} // verus!
