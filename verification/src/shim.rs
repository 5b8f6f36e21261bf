//! The shim emitter: one flat foreign-call function for each function of the
//! model, as source text.

use vstd::prelude::*;
use vstd::string::*;
use crate::model::{ClassView, FunctionView, MetaValue, MetaValueView, ModuleView, TsClass, TsFunction, TsModule};
use crate::resolve::{
    is_collection,
    is_string,
    is_string_name,
    opt_text,
    resolve,
    resolved,
    returns_collection,
    Policy,
};
use crate::registry::{find_class, has_class};
use crate::symbols::{exported_name, shim_name, symbol_name};
use crate::text::{char_len, concat, concat_strings, has_prefix, join, join_strings, str_eq};

verus! {

/// Source types that arrive as a 32-bit integer.
pub open spec fn is_shim_integer(t: Seq<char>) -> bool {
    ||| t == "Color"@
    ||| t == "Rgb24"@
    ||| t == "i8"@
    ||| t == "i16"@
    ||| t == "i32"@
    ||| t == "u8"@
    ||| t == "u16"@
    ||| t == "u32"@
}

/// Source types that arrive as a 32-bit float.
pub open spec fn is_shim_float(t: Seq<char>) -> bool {
    t == "f32"@ || t == "f64"@
}

/// The flat type under which the shim receives a value of source type `t`:
/// integers as `i32`, floats as `f32`, `bool` as `bool`, strings as a byte
/// pointer, anything else as `i32`.
pub open spec fn shim_type(t: Seq<char>) -> Seq<char> {
    if is_shim_integer(t) {
        "i32"@
    } else if is_shim_float(t) {
        "f32"@
    } else if t == "bool"@ {
        "bool"@
    } else if is_string(t) {
        "*const u8"@
    } else {
        "i32"@
    }
}

/// The flat type for a source type.
pub fn arg_type_rust(typ: &str) -> (r: &'static str)
    ensures
        r@ == shim_type(typ@),
{
    if str_eq(typ, "Color") || str_eq(typ, "Rgb24") || str_eq(typ, "i8") || str_eq(typ, "i16")
        || str_eq(typ, "i32") || str_eq(typ, "u8") || str_eq(typ, "u16") || str_eq(typ, "u32") {
        "i32"
    } else if str_eq(typ, "f32") || str_eq(typ, "f64") {
        "f32"
    } else if str_eq(typ, "bool") {
        "bool"
    } else if is_string_name(typ) {
        "*const u8"
    } else {
        "i32"
    }
}

/// Source types that are narrower than the flat integer, so that a received
/// value has to be converted and the conversion can fail.
pub open spec fn needs_narrowing(t: Seq<char>) -> bool {
    ||| t == "u8"@
    ||| t == "u16"@
    ||| t == "u32"@
    ||| t == "i8"@
    ||| t == "i16"@
    ||| t == "Color"@
    ||| t == "Rgb24"@
}

/// What a flat function does when it cannot convert an argument: one that
/// returns `Self` hands back a null pointer, any other returns at once.
pub open spec fn fallback(return_type: Seq<char>) -> Seq<char> {
    if return_type == "Self"@ {
        "return std::ptr::null_mut()"@
    } else {
        "return (),"@
    }
}

/// The statements that convert one received argument, if its type needs any:
/// a string is decoded, an optional boolean is read from `0`, `1` or any
/// other number, a narrow integer is narrowed.
pub open spec fn cast_line(arg: (Seq<char>, Seq<char>), fallback: Seq<char>) -> Option<Seq<char>> {
    if is_string(arg.1) {
        Some(
            "let c_str = unsafe { CStr::from_ptr("@ + arg.0 + " as *const i8) };\nlet "@ + arg.0
                + " = match c_str.to_str() { Ok(s) => s, Err(_) => "@ + fallback + " };"@,
        )
    } else if arg.1 == "Option<bool>"@ {
        Some(
            "let "@ + arg.0 + " = match "@ + arg.0
                + " { 0 => Some(false), 1 => Some(true), _ => None };"@,
        )
    } else if needs_narrowing(arg.1) {
        Some(
            "let "@ + arg.0 + " = match "@ + arg.0 + ".try_into() { Ok(v) => v, Err(_) => "@
                + fallback + " };"@,
        )
    } else {
        None
    }
}

/// The conversions of the arguments that need one, in argument order.
pub open spec fn cast_lines(args: Seq<(Seq<char>, Seq<char>)>, fallback: Seq<char>) -> Seq<Seq<char>>
    decreases args.len(),
{
    if args.len() == 0 {
        Seq::empty()
    } else {
        match cast_line(args.last(), fallback) {
            Some(line) => cast_lines(args.drop_last(), fallback).push(line),
            None => cast_lines(args.drop_last(), fallback),
        }
    }
}

/// The conversion statements of a flat function, one line after another.
pub open spec fn arg_cast_text(args: Seq<(Seq<char>, Seq<char>)>, return_type: Seq<char>) -> Seq<char> {
    join(cast_lines(args, fallback(return_type)), "\n"@)
}

/// The conversion of one received argument, if its type needs one.
pub fn arg_cast_rust_line(name: &str, typ: &str, fallback: &str) -> (r: Option<String>)
    ensures
        r.deep_view() == cast_line((name@, typ@), fallback@),
{
    if is_string_name(typ) {
        let mut out = String::from_str("let c_str = unsafe { CStr::from_ptr(");
        out.append(name);
        out.append(" as *const i8) };\nlet ");
        out.append(name);
        out.append(" = match c_str.to_str() { Ok(s) => s, Err(_) => ");
        out.append(fallback);
        out.append(" };");
        Some(out)
    } else if str_eq(typ, "Option<bool>") {
        let mut out = String::from_str("let ");
        out.append(name);
        out.append(" = match ");
        out.append(name);
        out.append(" { 0 => Some(false), 1 => Some(true), _ => None };");
        Some(out)
    } else if str_eq(typ, "u8") || str_eq(typ, "u16") || str_eq(typ, "u32") || str_eq(typ, "i8")
        || str_eq(typ, "i16") || str_eq(typ, "Color") || str_eq(typ, "Rgb24") {
        let mut out = String::from_str("let ");
        out.append(name);
        out.append(" = match ");
        out.append(name);
        out.append(".try_into() { Ok(v) => v, Err(_) => ");
        out.append(fallback);
        out.append(" };");
        Some(out)
    } else {
        None
    }
}

/// The conversion statements for the arguments of a flat function whose
/// source function returns `return_type`.
pub fn arg_cast_rust_lines(args: &[(String, String)], return_type: &str) -> (r: String)
    ensures
        r@ == arg_cast_text(args.deep_view(), return_type@),
{
    let fb = if str_eq(return_type, "Self") {
        "return std::ptr::null_mut()"
    } else {
        "return (),"
    };
    let mut lines: Vec<String> = Vec::new();
    let mut i: usize = 0;
    assert(args.deep_view().take(0) =~= Seq::empty());
    while i < args.len()
        invariant
            i <= args.len(),
            fb@ == fallback(return_type@),
            lines.deep_view() == cast_lines(args.deep_view().take(i as int), fb@),
        decreases args.len() - i,
    {
        let line = arg_cast_rust_line(args[i].0.as_str(), args[i].1.as_str(), fb);
        proof {
            let next = args.deep_view().take(i + 1);
            assert(next.drop_last() =~= args.deep_view().take(i as int));
            assert(next.last() == (args[i as int].0@, args[i as int].1@));
        }
        let ghost before = lines.deep_view();
        match line {
            Some(l) => {
                lines.push(l);
                assert(lines.deep_view() =~= before.push(l@));
            },
            None => {},
        }
        i += 1;
    }
    assert(args.deep_view().take(args.len() as int) =~= args.deep_view());
    join_strings(&lines, "\n")
}

/// Records on a function what the shim needs of it: the hint
/// `arg_cast_lines` with its conversion statements and, where it hands out a
/// collection, the hint `is_vec`.
pub fn enrich_function_metadata(func: &mut TsFunction)
    ensures
        final(func)@.name == old(func)@.name,
        final(func)@.args == old(func)@.args,
        final(func)@.return_type == old(func)@.return_type,
        final(func)@.body == old(func)@.body,
        final(func)@.meta == shim_hints(old(func)@),
{
    let args = func.args.as_slice();
    assert(args.deep_view() =~= func.args.deep_view());
    let lines = arg_cast_rust_lines(args, func.return_type.as_str());
    func.meta.insert(String::from_str("arg_cast_lines"), MetaValue::Text(lines));
    if returns_collection(func.return_type.as_str()) {
        func.meta.insert(String::from_str("is_vec"), MetaValue::Flag(true));
    }
}

/// The hints of a function after [`enrich_function_metadata`].
pub open spec fn shim_hints(f: FunctionView) -> Map<Seq<char>, MetaValueView> {
    let with_lines = f.meta.insert(
        "arg_cast_lines"@,
        MetaValueView::Text(arg_cast_text(f.args, f.return_type)),
    );
    if is_collection(f.return_type) {
        with_lines.insert("is_vec"@, MetaValueView::Flag(true))
    } else {
        with_lines
    }
}

/// The parameters of a flat function, one for each source parameter and in
/// the same order: `name: flat type`.
pub open spec fn shim_params(args: Seq<(Seq<char>, Seq<char>)>) -> Seq<Seq<char>> {
    Seq::new(args.len(), |i: int| args[i].0 + ": "@ + shim_type(args[i].1))
}

/// The names of the parameters, in order.
pub open spec fn arg_names(args: Seq<(Seq<char>, Seq<char>)>) -> Seq<Seq<char>> {
    Seq::new(args.len(), |i: int| args[i].0)
}

/// The arguments of a forwarding call: the parameter names joined by `, `.
pub open spec fn call_args(args: Seq<(Seq<char>, Seq<char>)>) -> Seq<char> {
    join(arg_names(args), ", "@)
}

/// The return type that decides how a flat function answers: a method named
/// `new` constructs, so it counts as returning `Self`.
pub open spec fn effective_return(f: FunctionView, class: Option<Seq<char>>) -> Seq<char> {
    if class is Some && f.name == "new"@ {
        "Self"@
    } else {
        f.return_type
    }
}

/// The type behind the pointer that a flat function hands out, if it hands
/// out one: the class for a method that returns `Self`, the collection's
/// target name for a function that returns a collection, and the class
/// itself for a function that returns one of the classes `known` in its module.
pub open spec fn boxed_target(
    return_type: Seq<char>,
    class: Option<Seq<char>>,
    known: Seq<ClassView>,
) -> Option<Seq<char>> {
    if class is Some && return_type == "Self"@ {
        Some(class->0)
    } else if is_collection(return_type) {
        Some(resolved(return_type, None, Policy::PassThrough))
    } else if has_class(known, return_type) {
        Some(return_type)
    } else {
        None
    }
}

/// The return clause of a flat function: a pointer for a boxed value,
/// nothing for `void`, else the flat type.
pub open spec fn return_clause(
    return_type: Seq<char>,
    class: Option<Seq<char>>,
    known: Seq<ClassView>,
) -> Seq<char> {
    match boxed_target(return_type, class, known) {
        Some(target) => " -> *mut "@ + target,
        None => if return_type == "void"@ {
            Seq::empty()
        } else {
            " -> "@ + shim_type(return_type)
        },
    }
}

/// The expression that a flat function forwards to.
pub open spec fn forward_call(module: Seq<char>, f: FunctionView, class: Option<Seq<char>>) -> Seq<char> {
    match class {
        None => "crate::"@ + module + "::"@ + f.name + "("@ + call_args(f.args) + ")"@,
        Some(c) => if f.name == "new"@ {
            "crate::"@ + module + "::"@ + c + "::new("@ + call_args(f.args) + ")"@
        } else {
            "unsafe { &*ptr }."@ + f.name + "("@ + call_args(f.args) + ")"@
        },
    }
}

/// The last expression of a flat function: the forwarded call, moved to the
/// heap and handed out as a pointer where the function hands out a boxed value.
pub open spec fn result_expr(
    module: Seq<char>,
    known: Seq<ClassView>,
    f: FunctionView,
    class: Option<Seq<char>>,
) -> Seq<char> {
    if boxed_target(effective_return(f, class), class, known) is Some {
        "Box::into_raw(Box::new("@ + forward_call(module, f, class) + "))"@
    } else {
        forward_call(module, f, class)
    }
}

/// The parameter list of a flat function: an instance method receives the
/// object's pointer first.
pub open spec fn param_list(f: FunctionView, class: Option<Seq<char>>) -> Seq<char> {
    match class {
        None => join(shim_params(f.args), ", "@),
        Some(c) => if f.name == "new"@ {
            join(shim_params(f.args), ", "@)
        } else if f.args.len() == 0 {
            "ptr: *const "@ + c
        } else {
            "ptr: *const "@ + c + ", "@ + join(shim_params(f.args), ", "@)
        },
    }
}

/// The conversion statements as they stand in a flat function's body.
pub open spec fn cast_block(f: FunctionView, class: Option<Seq<char>>) -> Seq<char> {
    let lines = arg_cast_text(f.args, effective_return(f, class));
    if lines.len() == 0 {
        lines
    } else {
        lines + "\n"@
    }
}

/// The flat function for `f`, a free function of `module` or a method of
/// `class`, in a module with the classes `known`.
pub open spec fn function_shim(
    module: Seq<char>,
    known: Seq<ClassView>,
    f: FunctionView,
    class: Option<Seq<char>>,
) -> Seq<char> {
    "#[no_mangle]\npub extern \"C\" fn "@ + shim_name(class, f.name) + "("@ + param_list(f, class)
        + ")"@ + return_clause(effective_return(f, class), class, known) + " {\n"@ + cast_block(f, class)
        + "    "@ + result_expr(module, known, f, class) + "\n}\n"@
}

/// The flat functions of a class.
pub open spec fn class_shim(module: Seq<char>, known: Seq<ClassView>, c: ClassView) -> Seq<char> {
    concat(
        Seq::new(c.methods.len(), |i: int| function_shim(module, known, c.methods[i], Some(c.name))),
    )
}

/// The line that brings a class into scope.
pub open spec fn class_import(module: Seq<char>, c: ClassView) -> Seq<char> {
    "use crate::"@ + module + "::"@ + c.name + ";\n"@
}

/// The part of the shim that belongs to a module: the imports of its classes,
/// the flat functions of its free functions, then those of its classes.
pub open spec fn module_shim(m: ModuleView) -> Seq<char> {
    concat(Seq::new(m.classes.len(), |i: int| class_import(m.name, m.classes[i]))) + concat(
        Seq::new(m.functions.len(), |i: int| function_shim(m.name, m.classes, m.functions[i], None)),
    ) + concat(Seq::new(m.classes.len(), |i: int| class_shim(m.name, m.classes, m.classes[i])))
}

/// The first lines of the shim text.
pub open spec fn shim_header() -> Seq<char> {
    "// Auto-generated wrapper functions\n\nuse std::ffi::CStr;\n"@
}

/// The shim text of a model.
pub open spec fn shim_text(modules: Seq<ModuleView>) -> Seq<char> {
    shim_header() + concat(Seq::new(modules.len(), |i: int| module_shim(modules[i])))
}

/// The parameter names joined by `, `.
pub fn generate_call_args(args: &Vec<(String, String)>) -> (r: String)
    ensures
        r@ == call_args(args.deep_view()),
{
    let mut names: Vec<String> = Vec::new();
    let mut i: usize = 0;
    while i < args.len()
        invariant
            i <= args.len(),
            names.len() == i,
            forall|k: int| 0 <= k < i ==> names[k]@ == (#[trigger] args.deep_view()[k]).0,
        decreases args.len() - i,
    {
        assert(args.deep_view()[i as int] == (args[i as int].0@, args[i as int].1@));
        names.push(args[i].0.clone());
        i += 1;
    }
    assert(names.deep_view() =~= arg_names(args.deep_view()));
    join_strings(&names, ", ")
}

/// The flat parameters joined by `, `.
fn generate_shim_params(args: &Vec<(String, String)>) -> (r: String)
    ensures
        r@ == join(shim_params(args.deep_view()), ", "@),
{
    let mut params: Vec<String> = Vec::new();
    let mut i: usize = 0;
    while i < args.len()
        invariant
            i <= args.len(),
            params.len() == i,
            forall|k: int|
                0 <= k < i ==> params[k]@ == (#[trigger] args.deep_view()[k]).0 + ": "@ + shim_type(
                    args.deep_view()[k].1,
                ),
        decreases args.len() - i,
    {
        assert(args.deep_view()[i as int] == (args[i as int].0@, args[i as int].1@));
        let mut param = args[i].0.clone();
        param.append(": ");
        param.append(arg_type_rust(args[i].1.as_str()));
        params.push(param);
        i += 1;
    }
    assert(params.deep_view() =~= shim_params(args.deep_view()));
    join_strings(&params, ", ")
}

/// Whether `f` is the constructor of a class.
fn is_constructor(f: &TsFunction, class: Option<&str>) -> (r: bool)
    ensures
        r == (class is Some && f@.name == "new"@),
{
    class.is_some() && str_eq(f.name.as_str(), "new")
}

/// The type behind the pointer that a flat function hands out, if any.
fn generate_boxed_target(return_type: &str, class: Option<&str>, known: &Vec<TsClass>) -> (r:
    Option<String>)
    ensures
        r.deep_view() == boxed_target(return_type@, opt_text(class), known.deep_view()),
{
    if class.is_some() && str_eq(return_type, "Self") {
        match class {
            Some(c) => Some(String::from_str(c)),
            None => None,
        }
    } else if returns_collection(return_type) {
        Some(resolve(return_type, None, Policy::PassThrough))
    } else if find_class(known, return_type).is_some() {
        Some(String::from_str(return_type))
    } else {
        None
    }
}

/// The flat function for `f`, a free function of `module` or a method of
/// `class`, in a module with the classes `known`.
pub fn generate_function_shim(
    module: &str,
    known: &Vec<TsClass>,
    f: &TsFunction,
    class: Option<&str>,
) -> (r: String)
    ensures
        r@ == function_shim(module@, known.deep_view(), f@, opt_text(class)),
{
    let ghost cv = opt_text(class);
    let constructs = is_constructor(f, class);
    let effective: &str = if constructs {
        "Self"
    } else {
        f.return_type.as_str()
    };
    assert(effective@ == effective_return(f@, cv));
    let target = generate_boxed_target(effective, class, known);
    let params = generate_shim_params(&f.args);
    let names = generate_call_args(&f.args);
    let args = f.args.as_slice();
    assert(args.deep_view() =~= f.args.deep_view());
    let casts = arg_cast_rust_lines(args, effective);

    let mut out = String::from_str("#[no_mangle]\npub extern \"C\" fn ");
    out.append(exported_name(class, f.name.as_str()).as_str());
    out.append("(");
    match class {
        None => {
            out.append(params.as_str());
        },
        Some(c) => {
            if constructs {
                out.append(params.as_str());
            } else if f.args.len() == 0 {
                let mut list = String::from_str("ptr: *const ");
                list.append(c);
                out.append(list.as_str());
            } else {
                let mut list = String::from_str("ptr: *const ");
                list.append(c);
                list.append(", ");
                list.append(params.as_str());
                out.append(list.as_str());
            }
        },
    }
    out.append(")");
    let mut clause = String::new();
    match &target {
        Some(t) => {
            clause.append(" -> *mut ");
            clause.append(t.as_str());
        },
        None => {
            if !str_eq(effective, "void") {
                clause.append(" -> ");
                clause.append(arg_type_rust(effective));
            }
        },
    }
    assert(clause@ =~= return_clause(effective_return(f@, cv), cv, known.deep_view()));
    out.append(clause.as_str());
    out.append(" {\n");
    let mut block = casts;
    if char_len(block.as_str()) != 0 {
        block.append("\n");
    }
    assert(block@ == cast_block(f@, cv));
    out.append(block.as_str());
    out.append("    ");
    let mut call = String::new();
    match class {
        None => {
            call.append("crate::");
            call.append(module);
            call.append("::");
            call.append(f.name.as_str());
            call.append("(");
            call.append(names.as_str());
            call.append(")");
        },
        Some(c) => {
            if constructs {
                call.append("crate::");
                call.append(module);
                call.append("::");
                call.append(c);
                call.append("::new(");
                call.append(names.as_str());
                call.append(")");
            } else {
                call.append("unsafe { &*ptr }.");
                call.append(f.name.as_str());
                call.append("(");
                call.append(names.as_str());
                call.append(")");
            }
        },
    }
    assert(call@ =~= forward_call(module@, f@, cv));
    if target.is_some() {
        let mut boxed = String::from_str("Box::into_raw(Box::new(");
        boxed.append(call.as_str());
        boxed.append("))");
        out.append(boxed.as_str());
    } else {
        out.append(call.as_str());
    }
    out.append("\n}\n");
    out
}

/// The flat functions of a class.
pub fn generate_class_shim(module: &str, known: &Vec<TsClass>, c: &TsClass) -> (r: String)
    ensures
        r@ == class_shim(module@, known.deep_view(), c@),
{
    let mut parts: Vec<String> = Vec::new();
    let mut i: usize = 0;
    while i < c.methods.len()
        invariant
            i <= c.methods.len(),
            parts.len() == i,
            forall|k: int|
                0 <= k < i ==> parts[k]@ == function_shim(
                    module@,
                    known.deep_view(),
                    #[trigger] c@.methods[k],
                    Some(c@.name),
                ),
        decreases c.methods.len() - i,
    {
        parts.push(generate_function_shim(module, known, &c.methods[i], Some(c.name.as_str())));
        i += 1;
    }
    assert(parts.deep_view() =~= Seq::new(
        c@.methods.len(),
        |i: int| function_shim(module@, known.deep_view(), c@.methods[i], Some(c@.name)),
    ));
    concat_strings(&parts)
}

/// The part of the shim that belongs to a module.
pub fn generate_module_shim(m: &TsModule) -> (r: String)
    ensures
        r@ == module_shim(m@),
{
    let mut imports: Vec<String> = Vec::new();
    let mut i: usize = 0;
    while i < m.classes.len()
        invariant
            i <= m.classes.len(),
            imports.len() == i,
            forall|k: int| 0 <= k < i ==> imports[k]@ == class_import(m@.name, #[trigger] m@.classes[k]),
        decreases m.classes.len() - i,
    {
        let mut line = String::from_str("use crate::");
        line.append(m.name.as_str());
        line.append("::");
        line.append(m.classes[i].name.as_str());
        line.append(";\n");
        imports.push(line);
        i += 1;
    }
    assert(imports.deep_view() =~= Seq::new(
        m@.classes.len(),
        |i: int| class_import(m@.name, m@.classes[i]),
    ));
    let mut functions: Vec<String> = Vec::new();
    let mut j: usize = 0;
    while j < m.functions.len()
        invariant
            j <= m.functions.len(),
            functions.len() == j,
            forall|k: int|
                0 <= k < j ==> functions[k]@ == function_shim(
                    m@.name,
                    m@.classes,
                    #[trigger] m@.functions[k],
                    None,
                ),
        decreases m.functions.len() - j,
    {
        functions.push(generate_function_shim(m.name.as_str(), &m.classes, &m.functions[j], None));
        j += 1;
    }
    assert(functions.deep_view() =~= Seq::new(
        m@.functions.len(),
        |i: int| function_shim(m@.name, m@.classes, m@.functions[i], None),
    ));
    let mut classes: Vec<String> = Vec::new();
    let mut k: usize = 0;
    while k < m.classes.len()
        invariant
            k <= m.classes.len(),
            classes.len() == k,
            forall|n: int|
                0 <= n < k ==> classes[n]@ == class_shim(m@.name, m@.classes, #[trigger] m@.classes[n]),
        decreases m.classes.len() - k,
    {
        classes.push(generate_class_shim(m.name.as_str(), &m.classes, &m.classes[k]));
        k += 1;
    }
    assert(classes.deep_view() =~= Seq::new(
        m@.classes.len(),
        |i: int| class_shim(m@.name, m@.classes, m@.classes[i]),
    ));
    let mut out = concat_strings(&imports);
    out.append(concat_strings(&functions).as_str());
    out.append(concat_strings(&classes).as_str());
    out
}

/// The shim text of a model: a flat function for each free function and each
/// method, module by module.
pub fn generate_wrapper_rust(modules: &[TsModule]) -> (r: String)
    ensures
        r@ == shim_text(modules.deep_view()),
{
    let mut parts: Vec<String> = Vec::new();
    let mut i: usize = 0;
    while i < modules.len()
        invariant
            i <= modules.len(),
            parts.len() == i,
            forall|k: int| 0 <= k < i ==> parts[k]@ == module_shim(#[trigger] modules.deep_view()[k]),
        decreases modules.len() - i,
    {
        parts.push(generate_module_shim(&modules[i]));
        i += 1;
    }
    assert(parts.deep_view() =~= Seq::new(
        modules.deep_view().len(),
        |i: int| module_shim(modules.deep_view()[i]),
    ));
    let mut out = String::from_str("// Auto-generated wrapper functions\n\nuse std::ffi::CStr;\n");
    out.append(concat_strings(&parts).as_str());
    out
}

/// The shim and the symbol collector name a function by one rule: the flat
/// function for it is declared under its shim name, and its symbol is that
/// name after `_`.
pub proof fn lemma_shim_declares_symbol(
    module: Seq<char>,
    known: Seq<ClassView>,
    f: FunctionView,
    class: Option<Seq<char>>,
)
    ensures
        symbol_name(class, f.name) == "_"@ + shim_name(class, f.name),
        has_prefix(
            function_shim(module, known, f, class),
            "#[no_mangle]\npub extern \"C\" fn "@ + shim_name(class, f.name) + "("@,
        ),
{
    let head = "#[no_mangle]\npub extern \"C\" fn "@ + shim_name(class, f.name) + "("@;
    assert(function_shim(module, known, f, class).subrange(0, head.len() as int) =~= head);
}

} // verus!
