//! The filters that templates of generated code apply to values. A filter that needs a string
//! is given the string a value holds, or `None` for a value that is no string, and then fails
//! with the filter's message.
use vstd::prelude::*;

use crate::codegen::model::{type_reference_text, FullyQualifiedTypeReference};
use crate::text::{copy_strings, strings_view};
use crate::codegen::utils::{
    camel_case, java_primitive_data_type, snake_case, to_camel_case, to_snake_case, to_upper_camel_case,
    upper_camel_case, JavaLanguage, Language,
};

verus! {

/// The result of a filter that maps a string with `f`, failing with `message` for a value that
/// is no string.
pub open spec fn string_filter(value: Option<Seq<char>>, f: spec_fn(Seq<char>) -> Seq<char>, message: Seq<char>) -> Result<
    Seq<char>,
    Seq<char>,
> {
    match value {
        Some(v) => Ok(f(v)),
        None => Err(message),
    }
}

pub open spec fn result_view(r: Result<String, String>) -> Result<Seq<char>, Seq<char>> {
    match r {
        Ok(s) => Ok(s@),
        Err(e) => Err(e@),
    }
}

pub open spec fn opt_str_view(v: Option<&str>) -> Option<Seq<char>> {
    match v {
        Some(s) => Some(s@),
        None => None,
    }
}

/// Converts a string to upper camel case.
pub fn upper_camel(value: Option<&str>) -> (r: Result<String, String>)
    ensures
        result_view(r) == string_filter(
            opt_str_view(value),
            |s: Seq<char>| upper_camel_case(s),
            "the `upper_camel` filter only accepts strings"@,
        ),
{
    match value {
        Some(v) => Ok(to_upper_camel_case(v)),
        None => Err(String::from_str("the `upper_camel` filter only accepts strings")),
    }
}

/// Converts a string to camel case.
pub fn camel(value: Option<&str>) -> (r: Result<String, String>)
    ensures
        result_view(r) == string_filter(
            opt_str_view(value),
            |s: Seq<char>| camel_case(s),
            "Required string for this filter"@,
        ),
{
    match value {
        Some(v) => Ok(to_camel_case(v)),
        None => Err(String::from_str("Required string for this filter")),
    }
}

/// Converts a string to snake case.
pub fn snake(value: Option<&str>) -> (r: Result<String, String>)
    ensures
        result_view(r) == string_filter(
            opt_str_view(value),
            |s: Seq<char>| snake_case(s),
            "Required string for this filter"@,
        ),
{
    match value {
        Some(v) => Ok(to_snake_case(v)),
        None => Err(String::from_str("Required string for this filter")),
    }
}

/// Whether the named type is provided by the language `L` itself.
pub fn is_built_in_type<L: Language>(value: Option<&str>) -> (r: Result<bool, String>)
    ensures
        match value {
            Some(v) => r == Ok::<bool, String>(L::spec_is_built_in_type(v@)),
            None => r matches Err(e) && e@ == "Required string for the `is_built_in_type` filter"@,
        },
{
    match value {
        Some(v) => Ok(L::is_built_in_type(String::from_str(v))),
        None => Err(String::from_str("Required string for the `is_built_in_type` filter")),
    }
}

/// The Java primitive data type of a wrapper class name.
pub fn primitive_data_type(value: Option<&str>) -> (r: Result<String, String>)
    ensures
        result_view(r) == string_filter(
            opt_str_view(value),
            |s: Seq<char>| java_primitive_data_type(s),
            "Required string for `primitive_data_type` filter"@,
        ),
{
    match value {
        Some(v) => Ok(JavaLanguage::primitive_data_type(v)),
        None => Err(String::from_str("Required string for `primitive_data_type` filter")),
    }
}

/// The names of the fields of an object, in the object's order: given the object's field names,
/// or `None` for a value that is no object.
pub fn field_names(value: Option<&Vec<String>>) -> (r: Result<Vec<String>, String>)
    ensures
        match value {
            Some(names) => r matches Ok(v) && strings_view(v@) == strings_view(names@),
            None => r matches Err(e) && e@ == "Required object for `keys` filter"@,
        },
{
    match value {
        Some(names) => Ok(copy_strings(names)),
        None => Err(String::from_str("Required object for `keys` filter")),
    }
}

/// The texts of the type parameters of a type reference, in the language `L`.
pub fn parameters<L: Language>(type_ref: &FullyQualifiedTypeReference) -> (r: Vec<String>)
    ensures
        r@.len() == type_ref@.parameters.len(),
        forall|i: int|
            0 <= i < r@.len() ==> #[trigger] r@[i]@ == type_reference_text(
                type_ref@.parameters[i],
                L::spec_namespace_separator(),
            ),
{
    let mut out: Vec<String> = Vec::new();
    let mut i: usize = 0;
    while i < type_ref.parameters.len()
        invariant
            i <= type_ref.parameters@.len(),
            out@.len() == i,
            forall|j: int|
                0 <= j < i ==> #[trigger] out@[j]@ == type_reference_text(
                    type_ref@.parameters[j],
                    L::spec_namespace_separator(),
                ),
        decreases type_ref.parameters@.len() - i,
    {
        assert(type_ref@.parameters[i as int] == type_ref.parameters@[i as int]@);
        out.push(type_ref.parameters[i].string_representation::<L>());
        i = i + 1;
    }
    out
}

/// The text of a type reference in the language `L`.
pub fn fully_qualified_type_name<L: Language>(type_ref: &FullyQualifiedTypeReference) -> (r: String)
    ensures
        r@ == type_reference_text(type_ref@, L::spec_namespace_separator()),
{
    type_ref.string_representation::<L>()
}

} // verus!
