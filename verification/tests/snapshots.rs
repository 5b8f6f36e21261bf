use tsbind::model::{Meta, MetaValue, TsClass, TsFunction, TsModule};
use tsbind::snapshot::{
    class_from_record, class_record, copy_args, copy_hint, copy_hints, from_records,
    function_from_record, function_record, module_from_record, module_record, to_records,
    FunctionRecord,
};

fn sample() -> Vec<TsModule> {
    let mut load_meta = Meta::new();
    load_meta.insert("requires_cwrap".to_string(), MetaValue::Flag(true));
    load_meta.insert("is_async".to_string(), MetaValue::Flag(false));
    load_meta.insert("is_async".to_string(), MetaValue::Flag(true));
    load_meta.insert("note".to_string(), MetaValue::Text("first".to_string()));
    vec![
        TsModule {
            name: "pyxel".to_string(),
            functions: vec![
                TsFunction {
                    name: "cls".to_string(),
                    args: vec![("color".to_string(), "Color".to_string())],
                    return_type: "void".to_string(),
                    body: String::new(),
                    meta: Meta::new(),
                },
                TsFunction {
                    name: "load".to_string(),
                    args: vec![
                        ("filename".to_string(), "str".to_string()),
                        ("excl_images".to_string(), "Option<bool>".to_string()),
                    ],
                    return_type: "void".to_string(),
                    body: "await fetchAndLoadResource(filename);".to_string(),
                    meta: load_meta,
                },
            ],
            classes: vec![TsClass {
                name: "Image".to_string(),
                methods: vec![TsFunction {
                    name: "new".to_string(),
                    args: vec![
                        ("width".to_string(), "u32".to_string()),
                        ("height".to_string(), "u32".to_string()),
                    ],
                    return_type: "Self".to_string(),
                    body: String::new(),
                    meta: Meta::new(),
                }],
            }],
        },
        TsModule { name: "empty".to_string(), functions: vec![], classes: vec![] },
    ]
}

fn assert_same_function(a: &TsFunction, b: &TsFunction) {
    assert_eq!(a.name, b.name);
    assert_eq!(a.args, b.args);
    assert_eq!(a.return_type, b.return_type);
    assert_eq!(a.body, b.body);
    for key in ["requires_cwrap", "is_async", "note", "absent"] {
        assert_eq!(a.meta.get(key), b.meta.get(key));
    }
    assert_eq!(a.meta.is_empty(), b.meta.is_empty());
}

#[test]
fn records_leave_out_what_is_empty() {
    let model = sample();
    let cls = function_record(&model[0].functions[0]);
    assert_eq!(cls.name, "cls");
    assert_eq!(cls.args, vec![("color".to_string(), "Color".to_string())]);
    assert_eq!(cls.return_type, "void");
    assert_eq!(cls.body, None);
    assert!(cls.meta.is_none());
    let load = function_record(&model[0].functions[1]);
    assert_eq!(load.body, Some("await fetchAndLoadResource(filename);".to_string()));
    let hints = load.meta.unwrap();
    let mut map = std::collections::HashMap::new();
    for (key, value) in hints {
        map.insert(key, value);
    }
    assert_eq!(map.len(), 3);
    assert_eq!(map["requires_cwrap"], MetaValue::Flag(true));
    assert_eq!(map["is_async"], MetaValue::Flag(true));
    assert_eq!(map["note"], MetaValue::Text("first".to_string()));
}

#[test]
fn records_read_back_give_the_model() {
    let model = sample();
    let records = to_records(&model);
    assert_eq!(records.len(), 2);
    assert_eq!(records[0].functions.len(), 2);
    assert_eq!(records[0].classes.len(), 1);
    assert_eq!(records[0].classes[0].methods.len(), 1);
    let back = from_records(&records);
    assert_eq!(back.len(), model.len());
    for (a, b) in back.iter().zip(model.iter()) {
        assert_eq!(a.name, b.name);
        assert_eq!(a.functions.len(), b.functions.len());
        for (f, g) in a.functions.iter().zip(b.functions.iter()) {
            assert_same_function(f, g);
        }
        assert_eq!(a.classes.len(), b.classes.len());
        for (c, d) in a.classes.iter().zip(b.classes.iter()) {
            assert_eq!(c.name, d.name);
            assert_eq!(c.methods.len(), d.methods.len());
            for (f, g) in c.methods.iter().zip(d.methods.iter()) {
                assert_same_function(f, g);
            }
        }
    }
    let none: Vec<TsModule> = vec![];
    assert!(to_records(&none).is_empty());
    assert!(from_records(&to_records(&none)).is_empty());
}

#[test]
fn record_without_body_and_hints_reads_as_empty() {
    let record = FunctionRecord {
        name: "cls".to_string(),
        args: vec![("color".to_string(), "u8".to_string())],
        return_type: "void".to_string(),
        body: None,
        meta: None,
    };
    let f = function_from_record(&record);
    assert_eq!(f.name, "cls");
    assert_eq!(f.args, vec![("color".to_string(), "u8".to_string())]);
    assert_eq!(f.return_type, "void");
    assert_eq!(f.body, "");
    assert!(f.meta.is_empty());
    let full = FunctionRecord {
        name: "init".to_string(),
        args: vec![],
        return_type: "void".to_string(),
        body: Some("await ready;".to_string()),
        meta: Some(vec![
            ("is_async".to_string(), MetaValue::Flag(false)),
            ("is_async".to_string(), MetaValue::Flag(true)),
        ]),
    };
    let g = function_from_record(&full);
    assert_eq!(g.body, "await ready;");
    assert_eq!(g.meta.get("is_async"), Some(&MetaValue::Flag(true)));
    let empty_hints = FunctionRecord { meta: Some(vec![]), body: Some(String::new()), ..record };
    let h = function_from_record(&empty_hints);
    assert_eq!(h.body, "");
    assert!(h.meta.is_empty());
}

#[test]
fn class_and_module_records_keep_the_order() {
    let model = sample();
    let class = class_record(&model[0].classes[0]);
    assert_eq!(class.name, "Image");
    assert_eq!(class.methods[0].name, "new");
    let read = class_from_record(&class);
    assert_eq!(read.name, "Image");
    assert_eq!(read.methods[0].return_type, "Self");
    let module = module_record(&model[0]);
    assert_eq!(module.name, "pyxel");
    assert_eq!(module.functions[0].name, "cls");
    assert_eq!(module.functions[1].name, "load");
    let read = module_from_record(&module);
    assert_eq!(read.functions[1].args.len(), 2);
    assert_eq!(read.classes[0].methods[0].args[1], ("height".to_string(), "u32".to_string()));
}

#[test]
fn copies_equal_what_they_copy() {
    assert_eq!(copy_hint(&MetaValue::Flag(true)), MetaValue::Flag(true));
    assert_eq!(copy_hint(&MetaValue::Text("a".to_string())), MetaValue::Text("a".to_string()));
    assert_eq!(copy_hint(&MetaValue::Json("[1,2]".to_string())), MetaValue::Json("[1,2]".to_string()));
    let hints = vec![
        ("a".to_string(), MetaValue::Flag(false)),
        ("b".to_string(), MetaValue::Text("t".to_string())),
    ];
    assert_eq!(copy_hints(&hints), hints);
    let args = vec![("x".to_string(), "i32".to_string()), ("y".to_string(), "u8".to_string())];
    assert_eq!(copy_args(&args), args);
    assert!(copy_args(&vec![]).is_empty());
}
