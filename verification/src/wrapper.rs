//! The wrapper emitter: the call surface on the foreign side, as source
//! text. For each free function it decides the call strategy first and
//! renders afterwards.

use vstd::prelude::*;
use vstd::string::*;
use crate::declaration::{decl_args, decl_return, generate_decl_return, generate_ts_decl_args};
use crate::model::{
    ClassView,
    FunctionView,
    MetaValue,
    MetaValueView,
    ModuleView,
    TsClass,
    TsFunction,
    TsModule,
};
use crate::resolve::{is_collection, is_string, is_string_name, resolve, resolved, returns_collection, Policy};
use crate::shim::{call_args, generate_call_args};
use crate::symbols::{exported_name, exported_symbol, shim_name, symbol_name};
use crate::text::{char_len, concat, concat_strings, contains, contains_text, join, join_strings, str_eq};

verus! {

/// How the wrapper of a function reaches its flat counterpart.
#[derive(Clone, Copy, Debug, PartialEq, Eq, Structural)]
pub enum CallStrategy {
    /// The function carries a body override, which is emitted as it is.
    CustomBody,
    /// A parameter is a string, so the wrapper text declares the flat
    /// function's signature; the call itself goes through the symbol.
    DeclaredSignature,
    /// The arguments are forwarded as they are.
    Direct,
}

/// Some parameter belongs to the string family.
pub open spec fn has_string_arg(args: Seq<(Seq<char>, Seq<char>)>) -> bool {
    exists|i: int| 0 <= i < args.len() && is_string(#[trigger] args[i].1)
}

/// Some parameter of the function belongs to the string family.
pub open spec fn needs_signature(f: FunctionView) -> bool {
    has_string_arg(f.args)
}

/// The strategy for a function: a body override comes first, a string
/// parameter second.
pub open spec fn strategy_of(f: FunctionView) -> CallStrategy {
    if f.body.len() != 0 {
        CallStrategy::CustomBody
    } else if needs_signature(f) {
        CallStrategy::DeclaredSignature
    } else {
        CallStrategy::Direct
    }
}

/// The expression that reaches the flat counterpart through its symbol, up
/// to its opening bracket.
pub open spec fn direct_callee(f: FunctionView) -> Seq<char> {
    "(instance as any)."@ + symbol_name(None, f.name) + "("@
}

/// The expression that reaches the flat counterpart through its declared
/// signature, up to its opening bracket.
pub open spec fn declared_callee(f: FunctionView) -> Seq<char> {
    "_fns."@ + shim_name(None, f.name) + "("@
}

/// The statement that calls the flat counterpart through its symbol, with
/// the arguments in order.
pub open spec fn direct_call(f: FunctionView) -> Seq<char> {
    direct_callee(f) + call_args(f.args) + ");"@
}

/// The statement that calls the flat counterpart through its declared
/// signature, with the arguments in order.
pub open spec fn declared_call(f: FunctionView) -> Seq<char> {
    declared_callee(f) + call_args(f.args) + ");"@
}

/// The body override of the function reaches the flat counterpart itself, in
/// one form or the other.
pub open spec fn calls_itself(f: FunctionView) -> bool {
    contains_text(f.body, direct_callee(f)) || contains_text(f.body, declared_callee(f))
}

/// The body of a function's wrapper. Without a body override it returns the
/// call through the symbol, whatever the parameters are. A body override is
/// emitted as it is. Unless it reaches the flat counterpart itself, the call
/// follows it on a line of its own: through the declared signature where a
/// parameter is a string, else through the symbol, whose result it returns.
pub open spec fn wrapper_call(f: FunctionView) -> Seq<char> {
    if f.body.len() == 0 {
        "return "@ + direct_call(f)
    } else if calls_itself(f) {
        f.body
    } else if needs_signature(f) {
        f.body + "\n"@ + declared_call(f)
    } else {
        f.body + "\nreturn "@ + direct_call(f)
    }
}

/// The tag under which a parameter of source type `t` is declared.
pub open spec fn arg_tag(t: Seq<char>) -> Seq<char> {
    if is_string(t) {
        "'string'"@
    } else {
        "'number'"@
    }
}

/// The tag under which a return value of source type `t` is declared.
pub open spec fn return_tag(t: Seq<char>) -> Seq<char> {
    if t == "void"@ {
        "null"@
    } else if is_string(t) {
        "\"string\""@
    } else {
        "\"number\""@
    }
}

/// The tags of the parameters, one for each and in the same order.
pub open spec fn arg_tags(args: Seq<(Seq<char>, Seq<char>)>) -> Seq<Seq<char>> {
    Seq::new(args.len(), |i: int| arg_tag(args[i].1))
}

/// The snippet that declares the signature of a function's flat counterpart,
/// for a function with a string parameter.
pub open spec fn proxy_definefn(f: FunctionView) -> Option<Seq<char>> {
    if needs_signature(f) {
        Some(
            "if (prop === \""@ + f.name + "\") {\n  return target.defineFn(\""@ + f.name + "\", "@
                + return_tag(f.return_type) + ", ["@ + join(arg_tags(f.args), ", "@) + "]);\n}"@,
        )
    } else {
        None
    }
}

/// Whether some parameter belongs to the string family.
pub fn any_string_arg(args: &[(String, String)]) -> (r: bool)
    ensures
        r == has_string_arg(args.deep_view()),
{
    let mut i: usize = 0;
    while i < args.len()
        invariant
            i <= args.len(),
            forall|k: int| 0 <= k < i ==> !is_string(#[trigger] args.deep_view()[k].1),
        decreases args.len() - i,
    {
        assert(args.deep_view()[i as int] == (args[i as int].0@, args[i as int].1@));
        if is_string_name(args[i].1.as_str()) {
            assert(is_string(args.deep_view()[i as int].1));
            return true;
        }
        i += 1;
    }
    false
}

/// Whether some parameter of `f` belongs to the string family.
pub fn requires_declared_signature(f: &TsFunction) -> (r: bool)
    ensures
        r == needs_signature(f@),
{
    let args = f.args.as_slice();
    assert(args.deep_view() =~= f.args.deep_view());
    any_string_arg(args)
}

/// The call strategy of a function.
pub fn call_strategy(f: &TsFunction) -> (r: CallStrategy)
    ensures
        r == strategy_of(f@),
{
    if char_len(f.body.as_str()) != 0 {
        CallStrategy::CustomBody
    } else if requires_declared_signature(f) {
        CallStrategy::DeclaredSignature
    } else {
        CallStrategy::Direct
    }
}

/// The body of a function's wrapper.
pub fn generate_wrapper_call(func: &TsFunction) -> (r: String)
    ensures
        r@ == wrapper_call(func@),
{
    let names = generate_call_args(&func.args);
    let mut direct_target = String::from_str("(instance as any).");
    direct_target.append(exported_symbol(None, func.name.as_str()).as_str());
    direct_target.append("(");
    let mut declared_target = String::from_str("_fns.");
    declared_target.append(exported_name(None, func.name.as_str()).as_str());
    declared_target.append("(");
    let mut direct = direct_target.clone();
    direct.append(names.as_str());
    direct.append(");");
    assert(direct@ == direct_call(func@));
    if char_len(func.body.as_str()) == 0 {
        let mut out = String::from_str("return ");
        out.append(direct.as_str());
        out
    } else if contains(func.body.as_str(), direct_target.as_str()) || contains(
        func.body.as_str(),
        declared_target.as_str(),
    ) {
        func.body.clone()
    } else if requires_declared_signature(func) {
        let mut declared = declared_target;
        declared.append(names.as_str());
        declared.append(");");
        let mut out = func.body.clone();
        out.append("\n");
        out.append(declared.as_str());
        out
    } else {
        let mut out = func.body.clone();
        out.append("\nreturn ");
        out.append(direct.as_str());
        out
    }
}

/// The snippet that declares the flat signature of a function with a string
/// parameter; `None` for any other function.
pub fn generate_proxy_definefn(func: &TsFunction) -> (r: Option<String>)
    ensures
        r.deep_view() == proxy_definefn(func@),
{
    if !requires_declared_signature(func) {
        return None;
    }
    let mut tags: Vec<String> = Vec::new();
    let mut i: usize = 0;
    while i < func.args.len()
        invariant
            i <= func.args.len(),
            tags.len() == i,
            forall|k: int| 0 <= k < i ==> tags[k]@ == arg_tag((#[trigger] func@.args[k]).1),
        decreases func.args.len() - i,
    {
        assert(func@.args[i as int] == (func.args[i as int].0@, func.args[i as int].1@));
        if is_string_name(func.args[i].1.as_str()) {
            tags.push(String::from_str("'string'"));
        } else {
            tags.push(String::from_str("'number'"));
        }
        i += 1;
    }
    assert(tags.deep_view() =~= arg_tags(func@.args));
    let mut out = String::from_str("if (prop === \"");
    out.append(func.name.as_str());
    out.append("\") {\n  return target.defineFn(\"");
    out.append(func.name.as_str());
    out.append("\", ");
    if str_eq(func.return_type.as_str(), "void") {
        out.append("null");
    } else if is_string_name(func.return_type.as_str()) {
        out.append("\"string\"");
    } else {
        out.append("\"number\"");
    }
    out.append(", [");
    out.append(join_strings(&tags, ", ").as_str());
    out.append("]);\n}");
    Some(out)
}

/// The function carries the hint `is_async`, set: its wrapper awaits.
pub open spec fn is_async(f: FunctionView) -> bool {
    f.meta.dom().contains("is_async"@) && f.meta["is_async"@] == MetaValueView::Flag(true)
}

/// Whether the wrapper of `f` awaits.
pub fn awaits(f: &TsFunction) -> (r: bool)
    ensures
        r == is_async(f@),
{
    match f.meta.get("is_async") {
        Some(MetaValue::Flag(flag)) => *flag,
        _ => false,
    }
}

/// The return type of a free function's wrapper.
pub open spec fn wrapper_return(f: FunctionView) -> Seq<char> {
    if is_async(f) {
        "Promise<"@ + resolved(f.return_type, None, Policy::PassThrough) + ">"@
    } else {
        resolved(f.return_type, None, Policy::PassThrough)
    }
}

/// The wrapper of a free function. One that hands out a collection wraps the
/// pointer it receives in the collection's type; any other has the body that
/// its call strategy gives.
pub open spec fn function_wrapper(f: FunctionView) -> Seq<char> {
    if is_collection(f.return_type) {
        "  export function "@ + f.name + "("@ + decl_args(f.args, None, Policy::PassThrough)
            + "): "@ + resolved(f.return_type, None, Policy::PassThrough) + " {\nreturn new "@
            + resolved(f.return_type, None, Policy::PassThrough) + "((instance as any)."@
            + symbol_name(None, f.name) + "("@ + call_args(f.args) + "));\n  }\n"@
    } else {
        "  export "@ + (if is_async(f) {
            "async "@
        } else {
            Seq::empty()
        }) + "function "@ + f.name + "("@ + decl_args(f.args, None, Policy::PassThrough) + "): "@
            + wrapper_return(f) + " {\n"@ + wrapper_call(f) + "\n  }\n"@
    }
}

/// The line with which a function's signature snippet stands in the list of a
/// module; empty for a function that has none.
pub open spec fn registration(f: FunctionView) -> Seq<char> {
    match proxy_definefn(f) {
        Some(snippet) => if is_collection(f.return_type) {
            Seq::empty()
        } else {
            snippet + "\n"@
        },
        None => Seq::empty(),
    }
}

/// The arguments that a method's wrapper hands on: the object's pointer, then
/// the method's own.
pub open spec fn method_call_args(m: FunctionView) -> Seq<char> {
    if m.args.len() == 0 {
        "this.ptr"@
    } else {
        "this.ptr, "@ + call_args(m.args)
    }
}

/// The wrapper of a method of the class `class_name`.
pub open spec fn method_wrapper(m: FunctionView, class_name: Seq<char>) -> Seq<char> {
    if m.name == "new"@ {
        "    static new("@ + decl_args(m.args, Some(class_name), Policy::PassThrough) + "): "@
            + class_name + " {\n      return new "@ + class_name + "((instance as any)."@
            + symbol_name(Some(class_name), m.name) + "("@ + call_args(m.args) + "));\n    }\n"@
    } else {
        "    "@ + m.name + "("@ + decl_args(m.args, Some(class_name), Policy::PassThrough) + "): "@
            + decl_return(m, Some(class_name), Policy::PassThrough)
            + " {\n      return (instance as any)."@ + symbol_name(Some(class_name), m.name) + "("@
            + method_call_args(m) + ");\n    }\n"@
    }
}

/// The wrapper of a class: a holder of the object's pointer with a wrapper
/// for each method.
pub open spec fn class_wrapper(c: ClassView) -> Seq<char> {
    "  export class "@ + c.name + " {\n    constructor(public ptr: number) {}\n"@ + concat(
        Seq::new(c.methods.len(), |i: int| method_wrapper(c.methods[i], c.name)),
    ) + "  }\n"@
}

/// The part of the wrapper text that belongs to a module: the signature
/// snippets of its functions, then a namespace with the wrappers of its
/// functions and classes.
pub open spec fn module_wrapper(m: ModuleView) -> Seq<char> {
    "function "@ + m.name + "_signatures(target: any, prop: string): any {\n"@ + concat(
        Seq::new(m.functions.len(), |i: int| registration(m.functions[i])),
    ) + "return undefined;\n}\nexport namespace "@ + m.name + " {\n"@ + concat(
        Seq::new(m.functions.len(), |i: int| function_wrapper(m.functions[i])),
    ) + concat(Seq::new(m.classes.len(), |i: int| class_wrapper(m.classes[i]))) + "}\n"@
}

/// The first line of the wrapper text.
pub open spec fn wrapper_header() -> Seq<char> {
    "// Auto-generated wrapper\n"@
}

/// The wrapper text of a model.
pub open spec fn wrapper_text(modules: Seq<ModuleView>) -> Seq<char> {
    wrapper_header() + concat(Seq::new(modules.len(), |i: int| module_wrapper(modules[i])))
}

/// The target name of a free function's return type.
fn generate_target(f: &TsFunction) -> (r: String)
    ensures
        r@ == resolved(f@.return_type, None, Policy::PassThrough),
{
    resolve(f.return_type.as_str(), None, Policy::PassThrough)
}

/// The wrapper of a free function.
pub fn generate_function_wrapper(f: &TsFunction) -> (r: String)
    ensures
        r@ == function_wrapper(f@),
{
    let args = f.args.as_slice();
    assert(args.deep_view() =~= f.args.deep_view());
    let params = generate_ts_decl_args(args, None);
    let target = generate_target(f);
    if returns_collection(f.return_type.as_str()) {
        let mut out = String::from_str("  export function ");
        out.append(f.name.as_str());
        out.append("(");
        out.append(params.as_str());
        out.append("): ");
        out.append(target.as_str());
        out.append(" {\nreturn new ");
        out.append(target.as_str());
        out.append("((instance as any).");
        out.append(exported_symbol(None, f.name.as_str()).as_str());
        out.append("(");
        out.append(generate_call_args(&f.args).as_str());
        out.append("));\n  }\n");
        out
    } else {
        let awaits = awaits(f);
        let mut head = String::from_str("  export ");
        if awaits {
            head.append("async ");
        }
        assert(head@ =~= "  export "@ + (if is_async(f@) {
            "async "@
        } else {
            Seq::empty()
        }));
        let ret = if awaits {
            let mut p = String::from_str("Promise<");
            p.append(target.as_str());
            p.append(">");
            p
        } else {
            target
        };
        let mut out = head;
        out.append("function ");
        out.append(f.name.as_str());
        out.append("(");
        out.append(params.as_str());
        out.append("): ");
        out.append(ret.as_str());
        out.append(" {\n");
        out.append(generate_wrapper_call(f).as_str());
        out.append("\n  }\n");
        out
    }
}

/// The line of a function in its module's list of signature snippets.
pub fn generate_registration(f: &TsFunction) -> (r: String)
    ensures
        r@ == registration(f@),
{
    match generate_proxy_definefn(f) {
        Some(snippet) => {
            if returns_collection(f.return_type.as_str()) {
                String::new()
            } else {
                let mut out = snippet;
                out.append("\n");
                out
            }
        },
        None => String::new(),
    }
}

/// The wrapper of a method of `class_name`.
pub fn generate_method_wrapper(m: &TsFunction, class_name: &str) -> (r: String)
    ensures
        r@ == method_wrapper(m@, class_name@),
{
    let args = m.args.as_slice();
    assert(args.deep_view() =~= m.args.deep_view());
    let params = generate_ts_decl_args(args, Some(class_name));
    let symbol = exported_symbol(Some(class_name), m.name.as_str());
    let names = generate_call_args(&m.args);
    if str_eq(m.name.as_str(), "new") {
        let mut out = String::from_str("    static new(");
        out.append(params.as_str());
        out.append("): ");
        out.append(class_name);
        out.append(" {\n      return new ");
        out.append(class_name);
        out.append("((instance as any).");
        out.append(symbol.as_str());
        out.append("(");
        out.append(names.as_str());
        out.append("));\n    }\n");
        out
    } else {
        assert(m@.args.len() == m.args.len());
        let handed = if m.args.len() == 0 {
            String::from_str("this.ptr")
        } else {
            let mut list = String::from_str("this.ptr, ");
            list.append(names.as_str());
            list
        };
        assert(handed@ =~= method_call_args(m@));
        let mut out = String::from_str("    ");
        out.append(m.name.as_str());
        out.append("(");
        out.append(params.as_str());
        out.append("): ");
        out.append(generate_decl_return(m, Some(class_name), Policy::PassThrough).as_str());
        out.append(" {\n      return (instance as any).");
        out.append(symbol.as_str());
        out.append("(");
        out.append(handed.as_str());
        out.append(");\n    }\n");
        out
    }
}

/// The wrapper of a class.
pub fn generate_class_wrapper(c: &TsClass) -> (r: String)
    ensures
        r@ == class_wrapper(c@),
{
    let mut parts: Vec<String> = Vec::new();
    let mut i: usize = 0;
    while i < c.methods.len()
        invariant
            i <= c.methods.len(),
            parts.len() == i,
            forall|k: int| 0 <= k < i ==> parts[k]@ == method_wrapper(#[trigger] c@.methods[k], c@.name),
        decreases c.methods.len() - i,
    {
        parts.push(generate_method_wrapper(&c.methods[i], c.name.as_str()));
        i += 1;
    }
    assert(parts.deep_view() =~= Seq::new(
        c@.methods.len(),
        |i: int| method_wrapper(c@.methods[i], c@.name),
    ));
    let mut out = String::from_str("  export class ");
    out.append(c.name.as_str());
    out.append(" {\n    constructor(public ptr: number) {}\n");
    out.append(concat_strings(&parts).as_str());
    out.append("  }\n");
    out
}

/// The part of the wrapper text that belongs to a module.
pub fn generate_module_wrapper(m: &TsModule) -> (r: String)
    ensures
        r@ == module_wrapper(m@),
{
    let mut snippets: Vec<String> = Vec::new();
    let mut functions: Vec<String> = Vec::new();
    let mut i: usize = 0;
    while i < m.functions.len()
        invariant
            i <= m.functions.len(),
            snippets.len() == i,
            functions.len() == i,
            forall|k: int| 0 <= k < i ==> snippets[k]@ == registration(#[trigger] m@.functions[k]),
            forall|k: int| 0 <= k < i ==> functions[k]@ == function_wrapper(#[trigger] m@.functions[k]),
        decreases m.functions.len() - i,
    {
        snippets.push(generate_registration(&m.functions[i]));
        functions.push(generate_function_wrapper(&m.functions[i]));
        i += 1;
    }
    assert(snippets.deep_view() =~= Seq::new(
        m@.functions.len(),
        |i: int| registration(m@.functions[i]),
    ));
    assert(functions.deep_view() =~= Seq::new(
        m@.functions.len(),
        |i: int| function_wrapper(m@.functions[i]),
    ));
    let mut classes: Vec<String> = Vec::new();
    let mut j: usize = 0;
    while j < m.classes.len()
        invariant
            j <= m.classes.len(),
            classes.len() == j,
            forall|k: int| 0 <= k < j ==> classes[k]@ == class_wrapper(#[trigger] m@.classes[k]),
        decreases m.classes.len() - j,
    {
        classes.push(generate_class_wrapper(&m.classes[j]));
        j += 1;
    }
    assert(classes.deep_view() =~= Seq::new(
        m@.classes.len(),
        |i: int| class_wrapper(m@.classes[i]),
    ));
    let mut out = String::from_str("function ");
    out.append(m.name.as_str());
    out.append("_signatures(target: any, prop: string): any {\n");
    out.append(concat_strings(&snippets).as_str());
    out.append("return undefined;\n}\nexport namespace ");
    out.append(m.name.as_str());
    out.append(" {\n");
    out.append(concat_strings(&functions).as_str());
    out.append(concat_strings(&classes).as_str());
    out.append("}\n");
    out
}

/// The wrapper text of a model.
pub fn generate_pyxel_ts(modules: &[TsModule]) -> (r: String)
    ensures
        r@ == wrapper_text(modules.deep_view()),
{
    let mut parts: Vec<String> = Vec::new();
    let mut i: usize = 0;
    while i < modules.len()
        invariant
            i <= modules.len(),
            parts.len() == i,
            forall|k: int| 0 <= k < i ==> parts[k]@ == module_wrapper(#[trigger] modules.deep_view()[k]),
        decreases modules.len() - i,
    {
        parts.push(generate_module_wrapper(&modules[i]));
        i += 1;
    }
    assert(parts.deep_view() =~= Seq::new(
        modules.deep_view().len(),
        |i: int| module_wrapper(modules.deep_view()[i]),
    ));
    let mut out = String::from_str("// Auto-generated wrapper\n");
    out.append(concat_strings(&parts).as_str());
    out
}

} // verus!
