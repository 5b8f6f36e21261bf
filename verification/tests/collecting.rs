use tsbind::collector::{collect_function, derive_function_meta, parse_tsmodule_name, CollectError, Collector};
use tsbind::facade::{cls, init, load, EngineCall, Image, ImageList, Session};
use tsbind::model::{Meta, MetaValue, TsClass, TsFunction, TsModule};
use tsbind::registry::{
    add_function, contains_function, find_class, find_module, register_class, register_function,
    register_module,
};
use tsbind::syntax::{
    attribute_value, extract_args, extract_return_type, parse_body_attr, resolve_type, type_ident,
    Attribute, FnArg, ReturnType, Signature, TypeExpr,
};

fn func(name: &str, args: &[(&str, &str)], return_type: &str) -> TsFunction {
    TsFunction {
        name: name.to_string(),
        args: args.iter().map(|(n, t)| (n.to_string(), t.to_string())).collect(),
        return_type: return_type.to_string(),
        body: String::new(),
        meta: Meta::new(),
    }
}

fn path(ident: &str) -> TypeExpr {
    TypeExpr::Path { ident: ident.to_string(), plain: true, first_argument: None }
}

fn generic(ident: &str, inner: TypeExpr) -> TypeExpr {
    TypeExpr::Path { ident: ident.to_string(), plain: false, first_argument: Some(Box::new(inner)) }
}

fn name_value(name: &str, value: &str) -> Attribute {
    Attribute::NameValue { name: Some(name.to_string()), value: Some(value.to_string()) }
}

#[test]
fn hints_start_empty_and_keep_the_last_value() {
    let mut meta = Meta::new();
    assert!(meta.is_empty());
    assert!(!meta.contains_key("is_async"));
    assert_eq!(meta.get("is_async"), None);
    meta.insert("is_async".to_string(), MetaValue::Flag(true));
    meta.insert("wrapper_call".to_string(), MetaValue::Text("x();".to_string()));
    assert!(!meta.is_empty());
    assert!(meta.contains_key("is_async"));
    assert!(!meta.contains_key("is_asyn"));
    assert_eq!(meta.get("is_async"), Some(&MetaValue::Flag(true)));
    meta.insert("is_async".to_string(), MetaValue::Flag(false));
    assert_eq!(meta.get("is_async"), Some(&MetaValue::Flag(false)));
    assert_eq!(meta.get("wrapper_call"), Some(&MetaValue::Text("x();".to_string())));
    let mut rebuilt = std::collections::HashMap::new();
    for (key, value) in meta.entries() {
        rebuilt.insert(key.clone(), value.clone());
    }
    assert_eq!(rebuilt.len(), 2);
    assert_eq!(rebuilt.get("is_async"), Some(&MetaValue::Flag(false)));
}

#[test]
fn derived_hints_follow_name_and_arguments() {
    let none: Vec<(String, String)> = vec![];
    let meta = derive_function_meta("cls", &vec![("color".to_string(), "u8".to_string())]);
    assert!(meta.is_empty());
    let meta = derive_function_meta("init", &none);
    assert_eq!(meta.get("is_async"), Some(&MetaValue::Flag(true)));
    assert_eq!(meta.get("requires_cwrap"), None);
    let meta = derive_function_meta("load", &vec![("filename".to_string(), "str".to_string())]);
    assert_eq!(meta.get("is_async"), Some(&MetaValue::Flag(true)));
    assert_eq!(meta.get("requires_cwrap"), Some(&MetaValue::Flag(true)));
    let meta = derive_function_meta("title", &vec![("text".to_string(), "String".to_string())]);
    assert_eq!(meta.get("is_async"), None);
    assert_eq!(meta.get("requires_cwrap"), Some(&MetaValue::Flag(true)));
}

#[test]
fn types_are_named_by_their_last_identifier() {
    assert_eq!(resolve_type(&path("u32")), "u32");
    assert_eq!(resolve_type(&TypeExpr::Reference(Box::new(path("str")))), "str");
    assert_eq!(
        resolve_type(&TypeExpr::Reference(Box::new(TypeExpr::Reference(Box::new(path("Image")))))),
        "Image"
    );
    assert_eq!(resolve_type(&generic("Option", path("bool"))), "Option<bool>");
    assert_eq!(resolve_type(&generic("Vec", path("Image"))), "Vec<Image>");
    assert_eq!(
        resolve_type(&generic("Option", generic("Vec", TypeExpr::Reference(Box::new(path("u8")))))),
        "Option<Vec<u8>>"
    );
    assert_eq!(resolve_type(&generic("HashMap", path("String"))), "HashMap");
    assert_eq!(resolve_type(&generic("Option", TypeExpr::Other)), "Option<any>");
    assert_eq!(
        resolve_type(&TypeExpr::Path { ident: "Option".to_string(), plain: false, first_argument: None }),
        "Option"
    );
    assert_eq!(
        resolve_type(&TypeExpr::Path { ident: "Color".to_string(), plain: false, first_argument: None }),
        "Color"
    );
    assert_eq!(resolve_type(&TypeExpr::Other), "any");
}

#[test]
fn only_a_plain_identifier_names_a_class() {
    assert_eq!(type_ident(&path("Image")), Some("Image".to_string()));
    assert_eq!(
        type_ident(&TypeExpr::Path { ident: "Image".to_string(), plain: false, first_argument: None }),
        None
    );
    assert_eq!(type_ident(&generic("Vec", path("u8"))), None);
    assert_eq!(type_ident(&TypeExpr::Reference(Box::new(path("Image")))), None);
    assert_eq!(type_ident(&TypeExpr::Other), None);
}

#[test]
fn arguments_are_taken_in_order_without_the_receiver() {
    let sig = Signature {
        ident: "blt".to_string(),
        inputs: vec![
            FnArg::Receiver,
            FnArg::Typed { name: Some("x".to_string()), ty: path("i32") },
            FnArg::Typed { name: None, ty: path("u8") },
            FnArg::Typed { name: Some("name".to_string()), ty: TypeExpr::Reference(Box::new(path("str"))) },
            FnArg::Typed { name: Some("flip".to_string()), ty: generic("Option", path("bool")) },
        ],
        output: ReturnType::Default,
    };
    assert_eq!(
        extract_args(&sig),
        vec![
            ("x".to_string(), "i32".to_string()),
            ("name".to_string(), "str".to_string()),
            ("flip".to_string(), "Option<bool>".to_string()),
        ]
    );
    let empty = Signature { ident: "f".to_string(), inputs: vec![], output: ReturnType::Default };
    assert!(extract_args(&empty).is_empty());
    assert_eq!(extract_return_type(&ReturnType::Default), "void");
    assert_eq!(extract_return_type(&ReturnType::Type(path("Self"))), "Self");
    assert_eq!(extract_return_type(&ReturnType::Type(generic("Vec", path("Image")))), "Vec<Image>");
    assert_eq!(extract_return_type(&ReturnType::Type(TypeExpr::Other)), "any");
}

#[test]
fn annotations_give_body_and_module_name() {
    assert_eq!(parse_body_attr(&Attribute::Empty), "");
    assert_eq!(parse_body_attr(&name_value("body", "await ready;")), "await ready;");
    assert_eq!(parse_body_attr(&name_value("name", "await ready;")), "");
    assert_eq!(parse_body_attr(&Attribute::Other), "");
    assert_eq!(
        parse_body_attr(&Attribute::NameValue { name: Some("body".to_string()), value: None }),
        ""
    );
    assert_eq!(
        parse_body_attr(&Attribute::NameValue { name: None, value: Some("x".to_string()) }),
        ""
    );
    assert_eq!(attribute_value(&name_value("body", "b"), "body"), Some("b".to_string()));
    assert_eq!(attribute_value(&name_value("body", "b"), "name"), None);
    assert_eq!(parse_tsmodule_name(&Attribute::Empty), Ok(None));
    assert_eq!(parse_tsmodule_name(&name_value("name", "pyxel")), Ok(Some("pyxel".to_string())));
    assert_eq!(parse_tsmodule_name(&name_value("body", "pyxel")), Err(CollectError::MalformedAnnotation));
    assert_eq!(parse_tsmodule_name(&Attribute::Other), Err(CollectError::MalformedAnnotation));
    assert_eq!(
        parse_tsmodule_name(&Attribute::NameValue { name: Some("name".to_string()), value: None }),
        Err(CollectError::MalformedAnnotation)
    );
}

#[test]
fn collected_function_carries_body_and_hints() {
    let sig = Signature {
        ident: "load".to_string(),
        inputs: vec![
            FnArg::Typed { name: Some("filename".to_string()), ty: TypeExpr::Reference(Box::new(path("str"))) },
            FnArg::Typed { name: Some("excl_images".to_string()), ty: generic("Option", path("bool")) },
        ],
        output: ReturnType::Default,
    };
    let f = collect_function(&name_value("body", "await fetchAndLoadResource(filename);"), &sig);
    assert_eq!(f.name, "load");
    assert_eq!(
        f.args,
        vec![
            ("filename".to_string(), "str".to_string()),
            ("excl_images".to_string(), "Option<bool>".to_string()),
        ]
    );
    assert_eq!(f.return_type, "void");
    assert_eq!(f.body, "await fetchAndLoadResource(filename);");
    assert_eq!(f.meta.get("requires_cwrap"), Some(&MetaValue::Flag(true)));
    assert_eq!(f.meta.get("is_async"), Some(&MetaValue::Flag(true)));
}

#[test]
fn registering_a_module_twice_keeps_one() {
    let mut modules: Vec<TsModule> = vec![];
    assert_eq!(register_module(&mut modules, "pyxel"), 0);
    assert_eq!(register_module(&mut modules, "audio"), 1);
    assert_eq!(register_module(&mut modules, "pyxel"), 0);
    assert_eq!(modules.len(), 2);
    assert_eq!(find_module(&modules, "audio"), Some(1));
    assert_eq!(find_module(&modules, "video"), None);
    assert!(modules[0].functions.is_empty());
    assert!(modules[0].classes.is_empty());
}

#[test]
fn registering_a_class_creates_its_module() {
    let mut modules: Vec<TsModule> = vec![];
    register_class(&mut modules, "pyxel", "Image");
    register_class(&mut modules, "pyxel", "Image");
    register_class(&mut modules, "pyxel", "Tilemap");
    assert_eq!(modules.len(), 1);
    assert_eq!(modules[0].classes.len(), 2);
    assert_eq!(find_class(&modules[0].classes, "Tilemap"), Some(1));
    assert_eq!(find_class(&modules[0].classes, "Sound"), None);
    assert!(modules[0].classes[0].methods.is_empty());
}

#[test]
fn registering_the_same_function_twice_keeps_one() {
    let mut modules: Vec<TsModule> = vec![];
    register_function(&mut modules, "pyxel", Some("Image"), func("new", &[("width", "u32")], "Self"));
    register_function(&mut modules, "pyxel", Some("Image"), func("new", &[("width", "u32")], "Self"));
    register_function(&mut modules, "pyxel", None, func("cls", &[("color", "u8")], "void"));
    register_function(&mut modules, "pyxel", None, func("cls", &[("color", "u8")], "u8"));
    assert_eq!(modules.len(), 1);
    assert_eq!(modules[0].functions.len(), 1);
    assert_eq!(modules[0].functions[0].return_type, "void");
    assert_eq!(modules[0].classes.len(), 1);
    assert_eq!(modules[0].classes[0].methods.len(), 1);
    register_function(&mut modules, "pyxel", None, func("new", &[("width", "u32")], "Self"));
    register_function(&mut modules, "pyxel", Some("Image"), func("new", &[("width", "u16")], "Self"));
    register_function(&mut modules, "pyxel", Some("Sound"), func("new", &[("width", "u32")], "Self"));
    register_function(&mut modules, "audio", None, func("cls", &[("color", "u8")], "void"));
    assert_eq!(modules.len(), 2);
    assert_eq!(modules[0].functions.len(), 2);
    assert_eq!(modules[0].classes.len(), 2);
    assert_eq!(modules[0].classes[0].methods.len(), 2);
    assert_eq!(modules[0].classes[1].methods.len(), 1);
    assert_eq!(modules[1].functions.len(), 1);
}

#[test]
fn registration_goes_to_the_first_bearer_of_a_name() {
    let mut modules = vec![
        TsModule { name: "pyxel".to_string(), functions: vec![], classes: vec![] },
        TsModule {
            name: "pyxel".to_string(),
            functions: vec![],
            classes: vec![
                TsClass { name: "Image".to_string(), methods: vec![] },
            ],
        },
    ];
    register_function(&mut modules, "pyxel", None, func("cls", &[], "void"));
    register_function(&mut modules, "pyxel", Some("Image"), func("new", &[], "Self"));
    assert_eq!(modules.len(), 2);
    assert_eq!(modules[0].functions.len(), 1);
    assert_eq!(modules[0].classes.len(), 1);
    assert_eq!(modules[0].classes[0].methods.len(), 1);
    assert!(modules[1].functions.is_empty());
    assert!(modules[1].classes[0].methods.is_empty());
}

#[test]
fn functions_are_added_unless_held() {
    let mut functions: Vec<TsFunction> = vec![];
    let f = func("cls", &[("color", "u8")], "void");
    assert!(!contains_function(&functions, &f));
    add_function(&mut functions, func("cls", &[("color", "u8")], "void"));
    assert!(contains_function(&functions, &f));
    add_function(&mut functions, func("cls", &[("color", "u8")], "other"));
    add_function(&mut functions, func("cls", &[], "void"));
    assert_eq!(functions.len(), 2);
    assert_eq!(functions[0].return_type, "void");
    assert!(functions[1].args.is_empty());
}

#[test]
fn collector_goes_on_from_an_earlier_model() {
    let earlier = vec![TsModule {
        name: "pyxel".to_string(),
        functions: vec![func("cls", &[("color", "u8")], "void")],
        classes: vec![],
    }];
    let mut c = Collector::from_modules(earlier);
    assert_eq!(c.current_module, None);
    c.tsmodule(&Attribute::Empty, "pyxel").unwrap();
    let sig = Signature {
        ident: "cls".to_string(),
        inputs: vec![FnArg::Typed { name: Some("color".to_string()), ty: path("u8") }],
        output: ReturnType::Default,
    };
    c.tsfunction(&Attribute::Empty, &sig);
    assert_eq!(c.modules.len(), 1);
    assert_eq!(c.modules[0].functions.len(), 1);
    c.tsimpl(&generic("Vec", path("u8")));
    assert_eq!(c.current_class, None);
    c.tsimpl(&path("Image"));
    assert_eq!(c.current_class, Some("Image".to_string()));
    c.tsfunction(&Attribute::Empty, &sig);
    assert_eq!(c.modules[0].functions.len(), 1);
    assert_eq!(c.modules[0].classes[0].methods.len(), 1);
}

#[test]
fn engine_calls_wait_for_the_start() {
    let mut session = Session::new();
    assert!(!session.started);
    assert!(cls(&session, 3).is_empty());
    assert!(load(&session, "a.pyxres", None, None, None, None, None, None, None).is_empty());
    assert_eq!(init(&mut session, 160, 120), vec![EngineCall::Init { width: 160, height: 120 }]);
    assert!(session.started);
    assert_eq!(
        cls(&session, 3),
        vec![
            EngineCall::Cls { color: 3 },
            EngineCall::Circb { x: 30, y: 30, radius: 20, color: 7 },
            EngineCall::Show,
        ]
    );
    assert_eq!(
        load(&session, "a.pyxres", Some(true), None, Some(false), None, None, None, Some(true)),
        vec![EngineCall::Load {
            filename: "a.pyxres".to_string(),
            excl_images: Some(true),
            excl_tilemaps: None,
            excl_sounds: Some(false),
            excl_musics: None,
            incl_colors: None,
            incl_channels: None,
            incl_tones: Some(true),
        }]
    );
    assert_eq!(init(&mut session, 1, 2), vec![EngineCall::Init { width: 1, height: 2 }]);
    assert!(session.started);
}

#[test]
fn image_list_hands_out_its_images() {
    let image = Image::new(256, 128);
    assert_eq!(image.width(), 256);
    assert_eq!(image.height(), 128);
    let list = ImageList::wrap(vec![image, Image::new(8, 16)]);
    assert_eq!(list.len(), 2);
    assert_eq!(list.get(0), image);
    assert_eq!(list.get(1).height(), 16);
    assert_eq!(ImageList::wrap(vec![]).len(), 0);
}
