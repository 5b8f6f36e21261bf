use tsbind::collector::{CollectError, Collector};
use tsbind::declaration::{generate_declarations, generate_declarations_with, generate_ts_decl_args};
use tsbind::model::{Meta, MetaValue, TsClass, TsFunction, TsModule};
use tsbind::resolve::Policy;
use tsbind::shim::generate_wrapper_rust;
use tsbind::symbols::collect_exported_function_names;
use tsbind::syntax::{Attribute, FnArg, ReturnType, Signature, TypeExpr};
use tsbind::wrapper::generate_pyxel_ts;

fn function(name: &str, args: &[(&str, &str)], return_type: &str, body: &str) -> TsFunction {
    TsFunction {
        name: name.to_string(),
        args: args.iter().map(|(n, t)| (n.to_string(), t.to_string())).collect(),
        return_type: return_type.to_string(),
        body: body.to_string(),
        meta: Meta::new(),
    }
}

fn pyxel_model() -> Vec<TsModule> {
    vec![TsModule {
        name: "pyxel".to_string(),
        functions: vec![function("cls", &[("color", "Color")], "void", "")],
        classes: vec![TsClass {
            name: "Image".to_string(),
            methods: vec![
                function("new", &[("width", "u32"), ("height", "u32")], "Self", ""),
                function("width", &[], "u32", ""),
                function("height", &[], "u32", ""),
            ],
        }],
    }]
}

fn plain(ident: &str) -> TypeExpr {
    TypeExpr::Path { ident: ident.to_string(), plain: true, first_argument: None }
}

fn typed(name: &str, ty: TypeExpr) -> FnArg {
    FnArg::Typed { name: Some(name.to_string()), ty }
}

#[test]
fn declaration_has_function_and_class_signatures() {
    let text = generate_declarations(&pyxel_model());
    assert!(text.contains("cls(color: number): void;"));
    assert!(text.contains("class Image { new(width: number, height: number): Image;"));
    assert_eq!(
        text,
        "declare namespace pyxel {\n  function cls(color: number): void;\n  class Image { new(width: number, height: number): Image; width(): number; height(): number; }\n}\n"
    );
}

#[test]
fn symbols_hold_function_and_constructor() {
    let names = collect_exported_function_names(&pyxel_model());
    assert!(names.contains(&"_cls".to_string()));
    assert!(names.contains(&"_Image_new".to_string()));
    assert_eq!(names, vec!["_cls", "_Image_new", "_Image_width", "_Image_height"]);
}

#[test]
fn shim_has_flat_constructor_and_function() {
    let text = generate_wrapper_rust(&pyxel_model());
    assert!(text.starts_with("// Auto-generated wrapper functions\n\nuse std::ffi::CStr;\nuse crate::pyxel::Image;\n"));
    assert!(text.contains(
        "#[no_mangle]\npub extern \"C\" fn cls(color: i32) {\nlet color = match color.try_into() { Ok(v) => v, Err(_) => return (), };\n    crate::pyxel::cls(color)\n}\n"
    ));
    assert!(text.contains(
        "#[no_mangle]\npub extern \"C\" fn Image_new(width: i32, height: i32) -> *mut Image {\nlet width = match width.try_into() { Ok(v) => v, Err(_) => return std::ptr::null_mut() };\nlet height = match height.try_into() { Ok(v) => v, Err(_) => return std::ptr::null_mut() };\n    Box::into_raw(Box::new(crate::pyxel::Image::new(width, height)))\n}\n"
    ));
    assert!(text.contains(
        "#[no_mangle]\npub extern \"C\" fn Image_width(ptr: *const Image) -> i32 {\n    unsafe { &*ptr }.width()\n}\n"
    ));
}

#[test]
fn wrapper_calls_only_exported_symbols() {
    let model = pyxel_model();
    let text = generate_pyxel_ts(&model);
    assert_eq!(
        text,
        "// Auto-generated wrapper\nfunction pyxel_signatures(target: any, prop: string): any {\nreturn undefined;\n}\nexport namespace pyxel {\n  export function cls(color: number): void {\nreturn (instance as any)._cls(color);\n  }\n  export class Image {\n    constructor(public ptr: number) {}\n    static new(width: number, height: number): Image {\n      return new Image((instance as any)._Image_new(width, height));\n    }\n    width(): number {\n      return (instance as any)._Image_width(this.ptr);\n    }\n    height(): number {\n      return (instance as any)._Image_height(this.ptr);\n    }\n  }\n}\n"
    );
    for name in collect_exported_function_names(&model) {
        assert!(text.contains(&format!("(instance as any).{}(", name)));
    }
}

#[test]
fn declaration_policy_decides_unknown_names() {
    let model = vec![TsModule {
        name: "m".to_string(),
        functions: vec![function("pick", &[("at", "Point")], "Shape", "")],
        classes: vec![],
    }];
    assert_eq!(
        generate_declarations_with(&model, Policy::Safe),
        "declare namespace m {\n  function pick(at: any): any;\n}\n"
    );
    assert_eq!(
        generate_declarations_with(&model, Policy::PassThrough),
        "declare namespace m {\n  function pick(at: Point): Shape;\n}\n"
    );
}

#[test]
fn empty_model_gives_headers_only() {
    let model: Vec<TsModule> = vec![];
    assert_eq!(generate_declarations(&model), "");
    assert_eq!(generate_pyxel_ts(&model), "// Auto-generated wrapper\n");
    assert_eq!(
        generate_wrapper_rust(&model),
        "// Auto-generated wrapper functions\n\nuse std::ffi::CStr;\n"
    );
    assert!(collect_exported_function_names(&model).is_empty());
}

#[test]
fn argument_order_is_kept_in_every_artifact() {
    let f = function("blt", &[("x", "i32"), ("img", "u8"), ("name", "str"), ("flip", "Option<bool>")], "void", "");
    assert_eq!(
        generate_ts_decl_args(&f.args, None),
        "x: number, img: number, name: string, flip?: boolean"
    );
    let model = vec![TsModule { name: "m".to_string(), functions: vec![f], classes: vec![] }];
    let shim = generate_wrapper_rust(&model);
    assert!(shim.contains("fn blt(x: i32, img: i32, name: *const u8, flip: i32) {"));
    assert!(shim.contains("    crate::m::blt(x, img, name, flip)\n"));
    let wrapper = generate_pyxel_ts(&model);
    assert!(wrapper.contains("function blt(x: number, img: number, name: string, flip?: boolean): void {"));
    assert!(wrapper.contains("return (instance as any)._blt(x, img, name, flip);"));
    assert!(wrapper.contains("defineFn(\"blt\", null, ['number', 'number', 'string', 'number']);"));
}

#[test]
fn collector_builds_the_pyxel_model() {
    let mut c = Collector::new();
    assert_eq!(c.tsmodule(&Attribute::Empty, "pyxel"), Ok(()));
    let cls = Signature {
        ident: "cls".to_string(),
        inputs: vec![typed("color", TypeExpr::Path {
            ident: "Color".to_string(),
            plain: false,
            first_argument: None,
        })],
        output: ReturnType::Default,
    };
    c.tsfunction(&Attribute::Empty, &cls);
    c.tsclass("Image");
    c.tsimpl(&plain("Image"));
    let new = Signature {
        ident: "new".to_string(),
        inputs: vec![typed("width", plain("u32")), typed("height", plain("u32"))],
        output: ReturnType::Type(plain("Self")),
    };
    c.tsfunction(&Attribute::Empty, &new);
    let width = Signature {
        ident: "width".to_string(),
        inputs: vec![FnArg::Receiver],
        output: ReturnType::Type(plain("u32")),
    };
    c.tsfunction(&Attribute::Empty, &width);
    assert_eq!(c.modules.len(), 1);
    assert_eq!(c.modules[0].name, "pyxel");
    assert_eq!(c.modules[0].functions.len(), 1);
    assert_eq!(c.modules[0].functions[0].args, vec![("color".to_string(), "Color".to_string())]);
    assert_eq!(c.modules[0].functions[0].return_type, "void");
    assert_eq!(c.modules[0].classes.len(), 1);
    assert_eq!(c.modules[0].classes[0].name, "Image");
    assert_eq!(c.modules[0].classes[0].methods.len(), 2);
    assert_eq!(c.modules[0].classes[0].methods[0].return_type, "Self");
    assert!(c.modules[0].classes[0].methods[1].args.is_empty());
    assert_eq!(
        collect_exported_function_names(&c.modules),
        vec!["_cls", "_Image_new", "_Image_width"]
    );
}

#[test]
fn collector_keeps_one_of_two_equal_functions() {
    let mut c = Collector::new();
    c.tsmodule(&Attribute::Empty, "pyxel").unwrap();
    let sig = Signature {
        ident: "cls".to_string(),
        inputs: vec![typed("color", plain("u8"))],
        output: ReturnType::Default,
    };
    c.tsfunction(&Attribute::Empty, &sig);
    let body = Attribute::NameValue {
        name: Some("body".to_string()),
        value: Some("later();".to_string()),
    };
    c.tsfunction(&body, &sig);
    assert_eq!(c.modules[0].functions.len(), 1);
    assert_eq!(c.modules[0].functions[0].body, "");
    let other = Signature {
        ident: "cls".to_string(),
        inputs: vec![typed("color", plain("u16"))],
        output: ReturnType::Default,
    };
    c.tsfunction(&Attribute::Empty, &other);
    assert_eq!(c.modules[0].functions.len(), 2);
}

#[test]
fn methods_of_a_type_that_is_no_class_change_nothing() {
    let mut c = Collector::new();
    c.tsimpl(&TypeExpr::Other);
    c.tsimpl(&TypeExpr::Reference(Box::new(plain("Image"))));
    assert!(c.modules.is_empty());
    assert_eq!(c.current_module, None);
    assert_eq!(c.current_class, None);
    assert_eq!(c.tsmodule(&Attribute::Empty, "pyxel"), Ok(()));
    c.tsclass("Image");
    c.tsimpl(&TypeExpr::Other);
    assert_eq!(c.current_class, Some("Image".to_string()));
    assert_eq!(c.modules[0].classes.len(), 1);
}

#[test]
fn collector_names_a_module_by_its_annotation() {
    let mut c = Collector::new();
    let named = Attribute::NameValue {
        name: Some("name".to_string()),
        value: Some("pyxel".to_string()),
    };
    assert_eq!(c.tsmodule(&named, "image_wrapper"), Ok(()));
    c.tsclass("Image");
    assert_eq!(c.tsmodule(&named, "resource_wrapper"), Ok(()));
    assert_eq!(c.current_module, Some("pyxel".to_string()));
    assert_eq!(c.current_class, None);
    assert_eq!(c.modules.len(), 1);
    assert_eq!(c.modules[0].name, "pyxel");
    assert_eq!(c.modules[0].classes.len(), 1);
    let wrong = Attribute::NameValue {
        name: Some("title".to_string()),
        value: Some("pyxel".to_string()),
    };
    assert_eq!(c.tsmodule(&wrong, "x"), Err(CollectError::MalformedAnnotation));
    assert_eq!(c.tsmodule(&Attribute::Other, "x"), Err(CollectError::MalformedAnnotation));
    assert_eq!(c.modules.len(), 1);
    assert_eq!(c.current_module, Some("pyxel".to_string()));
}

#[test]
fn collected_hints_do_not_count_for_equality() {
    let mut a = function("load", &[("filename", "str")], "void", "");
    let b = function("load", &[("filename", "str")], "u8", "other();");
    a.meta.insert("is_async".to_string(), MetaValue::Flag(true));
    assert!(a.same_signature(&b));
    let c = function("load", &[("file", "str")], "void", "");
    assert!(!a.same_signature(&c));
    let d = function("load", &[("filename", "str"), ("x", "u8")], "void", "");
    assert!(!a.same_signature(&d));
    let e = function("save", &[("filename", "str")], "void", "");
    assert!(!a.same_signature(&e));
}
