//! The declaration emitter: the model as type declarations, one namespace
//! block for each module.

use vstd::prelude::*;
use vstd::string::*;
use crate::model::{ClassView, FunctionView, ModuleView, TsClass, TsFunction, TsModule};
use crate::resolve::{
    is_optional,
    opt_text,
    optional_inner,
    optional_inner_name,
    resolve,
    resolved,
    Policy,
};
use crate::text::{concat, concat_strings, join, join_strings, str_eq};

verus! {

/// One parameter as it is declared: `name: type`, or `name?: type` where the
/// source type is an optional wrapper.
pub open spec fn decl_arg(arg: (Seq<char>, Seq<char>), self_type: Option<Seq<char>>, policy: Policy) -> Seq<
    char,
> {
    if is_optional(arg.1) {
        arg.0 + "?: "@ + resolved(optional_inner(arg.1), self_type, policy)
    } else {
        arg.0 + ": "@ + resolved(arg.1, self_type, policy)
    }
}

/// The declared parameters, one for each source parameter and in the same order.
pub open spec fn decl_params(
    args: Seq<(Seq<char>, Seq<char>)>,
    self_type: Option<Seq<char>>,
    policy: Policy,
) -> Seq<Seq<char>> {
    Seq::new(args.len(), |i: int| decl_arg(args[i], self_type, policy))
}

/// The parameter list of a declaration: the declared parameters joined by `, `.
pub open spec fn decl_args(
    args: Seq<(Seq<char>, Seq<char>)>,
    self_type: Option<Seq<char>>,
    policy: Policy,
) -> Seq<char> {
    join(decl_params(args, self_type, policy), ", "@)
}

/// The declared return type: a method named `new` constructs, so it returns
/// its class; any other function returns its resolved return type.
pub open spec fn decl_return(f: FunctionView, self_type: Option<Seq<char>>, policy: Policy) -> Seq<
    char,
> {
    match self_type {
        Some(c) => if f.name == "new"@ {
            c
        } else {
            resolved(f.return_type, self_type, policy)
        },
        None => resolved(f.return_type, self_type, policy),
    }
}

/// The signature line of a function: `name(params): return;`.
pub open spec fn signature_line(f: FunctionView, self_type: Option<Seq<char>>, policy: Policy) -> Seq<
    char,
> {
    f.name + "("@ + decl_args(f.args, self_type, policy) + "): "@ + decl_return(
        f,
        self_type,
        policy,
    ) + ";"@
}

/// The line of a free function inside its namespace block.
pub open spec fn function_decl(f: FunctionView, policy: Policy) -> Seq<char> {
    "  function "@ + signature_line(f, None, policy) + "\n"@
}

/// The signature of a method as it stands inside its class block.
pub open spec fn method_decl(m: FunctionView, class_name: Seq<char>, policy: Policy) -> Seq<char> {
    " "@ + signature_line(m, Some(class_name), policy)
}

/// The block of a class: its methods' signatures, each resolved inside that class.
pub open spec fn class_decl(c: ClassView, policy: Policy) -> Seq<char> {
    "  class "@ + c.name + " {"@ + concat(
        Seq::new(c.methods.len(), |i: int| method_decl(c.methods[i], c.name, policy)),
    ) + " }\n"@
}

/// The namespace block of a module: its functions, then its classes.
pub open spec fn module_decl(m: ModuleView, policy: Policy) -> Seq<char> {
    "declare namespace "@ + m.name + " {\n"@ + concat(
        Seq::new(m.functions.len(), |i: int| function_decl(m.functions[i], policy)),
    ) + concat(Seq::new(m.classes.len(), |i: int| class_decl(m.classes[i], policy))) + "}\n"@
}

/// The declaration text of a model: the blocks of its modules in order.
pub open spec fn declarations(modules: Seq<ModuleView>, policy: Policy) -> Seq<char> {
    concat(Seq::new(modules.len(), |i: int| module_decl(modules[i], policy)))
}

/// Declares one parameter.
pub fn generate_ts_decl_arg(name: &str, ty: &str, self_type: Option<&str>, policy: Policy) -> (r:
    String)
    ensures
        r@ == decl_arg((name@, ty@), opt_text(self_type), policy),
{
    let mut out = String::from_str(name);
    match optional_inner_name(ty) {
        Some(inner) => {
            out.append("?: ");
            out.append(resolve(inner.as_str(), self_type, policy).as_str());
        },
        None => {
            out.append(": ");
            out.append(resolve(ty, self_type, policy).as_str());
        },
    }
    out
}

/// Declares a parameter list under the given policy.
pub fn generate_ts_decl_args_with(
    args: &[(String, String)],
    self_type: Option<&str>,
    policy: Policy,
) -> (r: String)
    ensures
        r@ == decl_args(args.deep_view(), opt_text(self_type), policy),
{
    let mut parts: Vec<String> = Vec::new();
    let mut i: usize = 0;
    while i < args.len()
        invariant
            i <= args.len(),
            parts.len() == i,
            forall|k: int|
                0 <= k < i ==> parts[k]@ == decl_arg(
                    #[trigger] args.deep_view()[k],
                    opt_text(self_type),
                    policy,
                ),
        decreases args.len() - i,
    {
        let part = generate_ts_decl_arg(args[i].0.as_str(), args[i].1.as_str(), self_type, policy);
        assert(args.deep_view()[i as int] == (args[i as int].0@, args[i as int].1@));
        parts.push(part);
        i += 1;
    }
    assert(parts.deep_view() =~= decl_params(args.deep_view(), opt_text(self_type), policy));
    join_strings(&parts, ", ")
}

/// Declares a parameter list, keeping type names that are not recognised.
pub fn generate_ts_decl_args(args: &[(String, String)], self_type: Option<&str>) -> (r: String)
    ensures
        r@ == decl_args(args.deep_view(), opt_text(self_type), Policy::PassThrough),
{
    generate_ts_decl_args_with(args, self_type, Policy::PassThrough)
}

/// The declared return type of a function.
pub fn generate_decl_return(f: &TsFunction, self_type: Option<&str>, policy: Policy) -> (r: String)
    ensures
        r@ == decl_return(f@, opt_text(self_type), policy),
{
    match self_type {
        Some(c) => {
            if str_eq(f.name.as_str(), "new") {
                String::from_str(c)
            } else {
                resolve(f.return_type.as_str(), self_type, policy)
            }
        },
        None => resolve(f.return_type.as_str(), self_type, policy),
    }
}

/// The signature line of a function.
pub fn generate_signature_line(f: &TsFunction, self_type: Option<&str>, policy: Policy) -> (r:
    String)
    ensures
        r@ == signature_line(f@, opt_text(self_type), policy),
{
    let args = f.args.as_slice();
    assert(args.deep_view() =~= f.args.deep_view());
    let mut out = f.name.clone();
    out.append("(");
    out.append(generate_ts_decl_args_with(args, self_type, policy).as_str());
    out.append("): ");
    out.append(generate_decl_return(f, self_type, policy).as_str());
    out.append(";");
    out
}

/// The block of a class.
pub fn generate_class_decl(c: &TsClass, policy: Policy) -> (r: String)
    ensures
        r@ == class_decl(c@, policy),
{
    let mut parts: Vec<String> = Vec::new();
    let mut i: usize = 0;
    while i < c.methods.len()
        invariant
            i <= c.methods.len(),
            parts.len() == i,
            forall|k: int|
                0 <= k < i ==> parts[k]@ == method_decl(#[trigger] c@.methods[k], c@.name, policy),
        decreases c.methods.len() - i,
    {
        let mut part = String::from_str(" ");
        part.append(
            generate_signature_line(&c.methods[i], Some(c.name.as_str()), policy).as_str(),
        );
        parts.push(part);
        i += 1;
    }
    assert(parts.deep_view() =~= Seq::new(
        c@.methods.len(),
        |i: int| method_decl(c@.methods[i], c@.name, policy),
    ));
    let mut out = String::from_str("  class ");
    out.append(c.name.as_str());
    out.append(" {");
    out.append(concat_strings(&parts).as_str());
    out.append(" }\n");
    out
}

/// The namespace block of a module.
pub fn generate_module_decl(m: &TsModule, policy: Policy) -> (r: String)
    ensures
        r@ == module_decl(m@, policy),
{
    let mut functions: Vec<String> = Vec::new();
    let mut i: usize = 0;
    while i < m.functions.len()
        invariant
            i <= m.functions.len(),
            functions.len() == i,
            forall|k: int|
                0 <= k < i ==> functions[k]@ == function_decl(#[trigger] m@.functions[k], policy),
        decreases m.functions.len() - i,
    {
        let mut part = String::from_str("  function ");
        part.append(generate_signature_line(&m.functions[i], None, policy).as_str());
        part.append("\n");
        functions.push(part);
        i += 1;
    }
    assert(functions.deep_view() =~= Seq::new(
        m@.functions.len(),
        |i: int| function_decl(m@.functions[i], policy),
    ));
    let mut classes: Vec<String> = Vec::new();
    let mut j: usize = 0;
    while j < m.classes.len()
        invariant
            j <= m.classes.len(),
            classes.len() == j,
            forall|k: int| 0 <= k < j ==> classes[k]@ == class_decl(#[trigger] m@.classes[k], policy),
        decreases m.classes.len() - j,
    {
        classes.push(generate_class_decl(&m.classes[j], policy));
        j += 1;
    }
    assert(classes.deep_view() =~= Seq::new(
        m@.classes.len(),
        |i: int| class_decl(m@.classes[i], policy),
    ));
    let mut out = String::from_str("declare namespace ");
    out.append(m.name.as_str());
    out.append(" {\n");
    out.append(concat_strings(&functions).as_str());
    out.append(concat_strings(&classes).as_str());
    out.append("}\n");
    out
}

/// The declaration text of a model under the given policy.
pub fn generate_declarations_with(modules: &[TsModule], policy: Policy) -> (r: String)
    ensures
        r@ == declarations(modules.deep_view(), policy),
{
    let mut parts: Vec<String> = Vec::new();
    let mut i: usize = 0;
    while i < modules.len()
        invariant
            i <= modules.len(),
            parts.len() == i,
            forall|k: int|
                0 <= k < i ==> parts[k]@ == module_decl(#[trigger] modules.deep_view()[k], policy),
        decreases modules.len() - i,
    {
        parts.push(generate_module_decl(&modules[i], policy));
        i += 1;
    }
    assert(parts.deep_view() =~= Seq::new(
        modules.deep_view().len(),
        |i: int| module_decl(modules.deep_view()[i], policy),
    ));
    concat_strings(&parts)
}

/// The declaration text of a model. A type name that is not recognised is
/// declared as `any`.
pub fn generate_declarations(modules: &[TsModule]) -> (r: String)
    ensures
        r@ == declarations(modules.deep_view(), Policy::Safe),
{
    generate_declarations_with(modules, Policy::Safe)
}

} // verus!
