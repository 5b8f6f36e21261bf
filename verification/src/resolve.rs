//! The type resolver: from a source type name to the name of the target type.

use vstd::prelude::*;
use vstd::string::*;
use crate::text::{char_len, ends_with, has_prefix, has_suffix, starts_with, str_eq, substring};

verus! {

/// What becomes of a type name that the resolver does not recognise.
#[derive(Clone, Copy, Debug, PartialEq, Eq, Structural)]
pub enum Policy {
    /// The name is kept as it is.
    PassThrough,
    /// The name is replaced by the permissive type `any`.
    Safe,
}

/// The names of the integer and float families and their aliases.
pub open spec fn is_numeric(t: Seq<char>) -> bool {
    ||| t == "i8"@
    ||| t == "i16"@
    ||| t == "i32"@
    ||| t == "u8"@
    ||| t == "u16"@
    ||| t == "u32"@
    ||| t == "usize"@
    ||| t == "f32"@
    ||| t == "f64"@
    ||| t == "Color"@
    ||| t == "Rgb24"@
}

/// The names of the string family.
pub open spec fn is_string(t: Seq<char>) -> bool {
    t == "String"@ || t == "str"@
}

/// `t` is the optional wrapper around some type name: `Option<` .. `>`.
pub open spec fn is_optional(t: Seq<char>) -> bool {
    t.len() >= 8 && has_prefix(t, "Option<"@) && has_suffix(t, ">"@)
}

/// The type name that an optional wrapper holds.
pub open spec fn optional_inner(t: Seq<char>) -> Seq<char> {
    t.subrange(7, t.len() - 1)
}

/// `t` is the list wrapper around some type name: `Vec<` .. `>`.
pub open spec fn is_list(t: Seq<char>) -> bool {
    t.len() >= 5 && has_prefix(t, "Vec<"@) && has_suffix(t, ">"@)
}

/// The type name that a list wrapper holds.
pub open spec fn list_inner(t: Seq<char>) -> Seq<char> {
    t.subrange(4, t.len() - 1)
}

/// The target type name of the source type name `t`, inside the class
/// `self_type` if there is one. The first rule that applies decides:
/// the numeric family gives `number`, `bool` gives `boolean`, the string
/// family `string`, `void` stays `void`, `Self` gives the enclosing class
/// (`any` outside a class), an optional wrapper gives its resolved inner type
/// followed by ` | undefined`, a list wrapper its resolved inner type
/// followed by `List`, and any other name goes by the policy.
pub open spec fn resolved(t: Seq<char>, self_type: Option<Seq<char>>, policy: Policy) -> Seq<char>
    decreases t.len(),
{
    if is_numeric(t) {
        "number"@
    } else if t == "bool"@ {
        "boolean"@
    } else if is_string(t) {
        "string"@
    } else if t == "void"@ {
        "void"@
    } else if t == "Self"@ {
        match self_type {
            Some(c) => c,
            None => "any"@,
        }
    } else if is_optional(t) {
        resolved(optional_inner(t), self_type, policy) + " | undefined"@
    } else if is_list(t) {
        resolved(list_inner(t), self_type, policy) + "List"@
    } else {
        match policy {
            Policy::PassThrough => t,
            Policy::Safe => "any"@,
        }
    }
}

/// The characters of an optional string.
pub open spec fn opt_text(o: Option<&str>) -> Option<Seq<char>> {
    match o {
        Some(s) => Some(s@),
        None => None,
    }
}

/// Whether `t` names a member of the numeric family.
pub fn is_numeric_name(t: &str) -> (r: bool)
    ensures
        r == is_numeric(t@),
{
    str_eq(t, "i8") || str_eq(t, "i16") || str_eq(t, "i32") || str_eq(t, "u8") || str_eq(t, "u16")
        || str_eq(t, "u32") || str_eq(t, "usize") || str_eq(t, "f32") || str_eq(t, "f64") || str_eq(
        t,
        "Color",
    ) || str_eq(t, "Rgb24")
}

/// Whether `t` names a member of the string family.
pub fn is_string_name(t: &str) -> (r: bool)
    ensures
        r == is_string(t@),
{
    str_eq(t, "String") || str_eq(t, "str")
}

/// Whether `t` is an optional wrapper.
pub fn is_optional_name(t: &str) -> (r: bool)
    ensures
        r == is_optional(t@),
{
    char_len(t) >= 8 && starts_with(t, "Option<") && ends_with(t, ">")
}

/// Whether `t` is a list wrapper.
pub fn is_list_name(t: &str) -> (r: bool)
    ensures
        r == is_list(t@),
{
    char_len(t) >= 5 && starts_with(t, "Vec<") && ends_with(t, ">")
}

/// The type name inside an optional wrapper; `None` for any other name.
pub fn optional_inner_name(t: &str) -> (r: Option<String>)
    ensures
        r.deep_view() == if is_optional(t@) {
            Some(optional_inner(t@))
        } else {
            None
        },
{
    if is_optional_name(t) {
        let n = char_len(t);
        Some(substring(t, 7, n - 1))
    } else {
        None
    }
}

/// The type name inside a list wrapper; `None` for any other name.
pub fn list_inner_name(t: &str) -> (r: Option<String>)
    ensures
        r.deep_view() == if is_list(t@) {
            Some(list_inner(t@))
        } else {
            None
        },
{
    if is_list_name(t) {
        let n = char_len(t);
        Some(substring(t, 4, n - 1))
    } else {
        None
    }
}

/// Resolves a source type name under the given policy.
pub fn resolve(source_type: &str, self_type: Option<&str>, policy: Policy) -> (r: String)
    ensures
        r@ == resolved(source_type@, opt_text(self_type), policy),
    decreases source_type@.len(),
{
    if is_numeric_name(source_type) {
        String::from_str("number")
    } else if str_eq(source_type, "bool") {
        String::from_str("boolean")
    } else if is_string_name(source_type) {
        String::from_str("string")
    } else if str_eq(source_type, "void") {
        String::from_str("void")
    } else if str_eq(source_type, "Self") {
        match self_type {
            Some(c) => String::from_str(c),
            None => String::from_str("any"),
        }
    } else if let Some(inner) = optional_inner_name(source_type) {
        let mut out = resolve(inner.as_str(), self_type, policy);
        out.append(" | undefined");
        out
    } else if let Some(inner) = list_inner_name(source_type) {
        let mut out = resolve(inner.as_str(), self_type, policy);
        out.append("List");
        out
    } else {
        match policy {
            Policy::PassThrough => String::from_str(source_type),
            Policy::Safe => String::from_str("any"),
        }
    }
}

/// Resolves a source type name, keeping a name that is not recognised.
pub fn resolve_ts_type(rust_type: &str, self_type: Option<&str>) -> (r: String)
    ensures
        r@ == resolved(rust_type@, opt_text(self_type), Policy::PassThrough),
{
    resolve(rust_type, self_type, Policy::PassThrough)
}

/// Whether the target name of a return type marks a collection: it ends in `List`.
pub open spec fn is_collection(return_type: Seq<char>) -> bool {
    has_suffix(resolved(return_type, None, Policy::PassThrough), "List"@)
}

/// Whether a function with this return type hands out a collection.
pub fn returns_collection(return_type: &str) -> (r: bool)
    ensures
        r == is_collection(return_type@),
{
    let target = resolve(return_type, None, Policy::PassThrough);
    ends_with(target.as_str(), "List")
}

} // verus!
