//! What the collector reads of an annotated declaration: of a type, of a
//! function's signature and of an annotation's argument.

use vstd::prelude::*;
use vstd::string::*;
use crate::text::str_eq;

verus! {

/// A type as it is written in a declaration.
#[derive(Debug)]
pub enum TypeExpr {
    /// A reference to a type.
    Reference(Box<TypeExpr>),
    /// A path. `ident` is the identifier of its last segment, `plain` says
    /// that the path is that identifier and nothing else, and
    /// `first_argument` is the first argument between angle brackets after
    /// the last segment, where there is one and it is a type.
    Path { ident: String, plain: bool, first_argument: Option<Box<TypeExpr>> },
    /// Any other form of type.
    Other,
}

/// A parameter of a function.
#[derive(Debug)]
pub enum FnArg {
    /// The receiver, `self` in any form.
    Receiver,
    /// A parameter with a type. `name` is its pattern's identifier, where
    /// the pattern is one.
    Typed { name: Option<String>, ty: TypeExpr },
}

/// What a function returns.
#[derive(Debug)]
pub enum ReturnType {
    /// Nothing is written.
    Default,
    /// The type after the arrow.
    Type(TypeExpr),
}

/// The signature of a function.
#[derive(Debug)]
pub struct Signature {
    pub ident: String,
    pub inputs: Vec<FnArg>,
    pub output: ReturnType,
}

/// The argument of an annotation.
#[derive(Clone, Debug)]
pub enum Attribute {
    /// The annotation has no argument.
    Empty,
    /// The argument has the form `left = right`. `name` is the left side where
    /// it is one identifier, `value` the right side where it is a string literal.
    NameValue { name: Option<String>, value: Option<String> },
    /// Any other argument.
    Other,
}

/// The name under which the model keeps a type: a reference counts as what
/// it refers to; a path counts as its last identifier, with the name of its
/// first type argument between angle brackets where that identifier is
/// `Option` or `Vec`; any other form is `any`.
pub open spec fn type_text(ty: TypeExpr) -> Seq<char>
    decreases ty,
{
    match ty {
        TypeExpr::Reference(elem) => type_text(*elem),
        TypeExpr::Path { ident, plain, first_argument } => match first_argument {
            Some(inner) => if ident@ == "Option"@ || ident@ == "Vec"@ {
                ident@ + "<"@ + type_text(*inner) + ">"@
            } else {
                ident@
            },
            None => ident@,
        },
        TypeExpr::Other => "any"@,
    }
}

/// The name under which the model keeps a type.
pub fn resolve_type(ty: &TypeExpr) -> (r: String)
    ensures
        r@ == type_text(*ty),
    decreases ty,
{
    match ty {
        TypeExpr::Reference(elem) => resolve_type(elem),
        TypeExpr::Path { ident, plain, first_argument } => {
            match first_argument {
                Some(inner) => {
                    if str_eq(ident.as_str(), "Option") || str_eq(ident.as_str(), "Vec") {
                        let mut out = ident.clone();
                        out.append("<");
                        out.append(resolve_type(inner).as_str());
                        out.append(">");
                        out
                    } else {
                        ident.clone()
                    }
                },
                None => ident.clone(),
            }
        },
        TypeExpr::Other => String::from_str("any"),
    }
}

/// The identifier that a type consists of, where it consists of one.
pub open spec fn plain_ident(ty: TypeExpr) -> Option<Seq<char>> {
    match ty {
        TypeExpr::Path { ident, plain, first_argument } => if plain {
            Some(ident@)
        } else {
            None
        },
        _ => None,
    }
}

/// The identifier that a type consists of, where it consists of one.
pub fn type_ident(ty: &TypeExpr) -> (r: Option<String>)
    ensures
        r.deep_view() == plain_ident(*ty),
{
    match ty {
        TypeExpr::Path { ident, plain, first_argument } => {
            if *plain {
                Some(ident.clone())
            } else {
                None
            }
        },
        _ => None,
    }
}

/// The model's parameter for a parameter of a function, if it gives one: a
/// typed parameter whose pattern is an identifier.
pub open spec fn extracted_arg(input: FnArg) -> Option<(Seq<char>, Seq<char>)> {
    match input {
        FnArg::Typed { name: Some(n), ty } => Some((n@, type_text(ty))),
        _ => None,
    }
}

/// The model's parameters for the parameters of a function, in their order.
pub open spec fn extracted_args(inputs: Seq<FnArg>) -> Seq<(Seq<char>, Seq<char>)>
    decreases inputs.len(),
{
    if inputs.len() == 0 {
        Seq::empty()
    } else {
        match extracted_arg(inputs.last()) {
            Some(arg) => extracted_args(inputs.drop_last()).push(arg),
            None => extracted_args(inputs.drop_last()),
        }
    }
}

/// The model's parameters for a signature: one for each typed parameter whose
/// pattern is an identifier, in the signature's order; the receiver and other
/// patterns are left out.
pub fn extract_args(sig: &Signature) -> (r: Vec<(String, String)>)
    ensures
        r.deep_view() == extracted_args(sig.inputs@),
{
    let mut args: Vec<(String, String)> = Vec::new();
    let mut i: usize = 0;
    assert(sig.inputs@.take(0) =~= Seq::empty());
    assert(args.deep_view() =~= Seq::empty());
    while i < sig.inputs.len()
        invariant
            i <= sig.inputs.len(),
            args.deep_view() == extracted_args(sig.inputs@.take(i as int)),
        decreases sig.inputs.len() - i,
    {
        proof {
            let next = sig.inputs@.take(i + 1);
            assert(next.drop_last() =~= sig.inputs@.take(i as int));
            assert(next.last() == sig.inputs@[i as int]);
        }
        let ghost before = args.deep_view();
        match &sig.inputs[i] {
            FnArg::Typed { name: Some(n), ty } => {
                let text = resolve_type(ty);
                args.push((n.clone(), text));
                assert(args.deep_view() =~= before.push((n@, type_text(*ty))));
            },
            _ => {},
        }
        i += 1;
    }
    assert(sig.inputs@.take(sig.inputs.len() as int) =~= sig.inputs@);
    args
}

/// The model's name for what a function returns: `void` where nothing is written.
pub open spec fn return_text(output: ReturnType) -> Seq<char> {
    match output {
        ReturnType::Default => "void"@,
        ReturnType::Type(ty) => type_text(ty),
    }
}

/// The model's name for what a function returns.
pub fn extract_return_type(output: &ReturnType) -> (r: String)
    ensures
        r@ == return_text(*output),
{
    match output {
        ReturnType::Default => String::from_str("void"),
        ReturnType::Type(ty) => resolve_type(ty),
    }
}

/// The string that an annotation gives under `key`: the right side of
/// `key = "..."`.
pub open spec fn named_value(attr: Attribute, key: Seq<char>) -> Option<Seq<char>> {
    match attr {
        Attribute::NameValue { name: Some(n), value: Some(v) } => if n@ == key {
            Some(v@)
        } else {
            None
        },
        _ => None,
    }
}

/// The string that an annotation gives under `key`.
pub fn attribute_value(attr: &Attribute, key: &str) -> (r: Option<String>)
    ensures
        r.deep_view() == named_value(*attr, key@),
{
    match attr {
        Attribute::NameValue { name: Some(n), value: Some(v) } => {
            if str_eq(n.as_str(), key) {
                Some(v.clone())
            } else {
                None
            }
        },
        _ => None,
    }
}

/// The body override that an annotation gives: the string under `body`, and
/// the empty string for any other annotation.
pub open spec fn body_text(attr: Attribute) -> Seq<char> {
    match named_value(attr, "body"@) {
        Some(v) => v,
        None => Seq::empty(),
    }
}

/// The body override that an annotation gives.
pub fn parse_body_attr(attr: &Attribute) -> (r: String)
    ensures
        r@ == body_text(*attr),
{
    match attribute_value(attr, "body") {
        Some(v) => v,
        None => String::new(),
    }
}

} // verus!
