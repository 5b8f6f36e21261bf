use tsbind::manifest::{exported_functions_manifest, manifest_from, ManifestError};
use tsbind::model::{Meta, TsClass, TsFunction, TsModule};

fn named(name: &str) -> TsFunction {
    TsFunction {
        name: name.to_string(),
        args: vec![],
        return_type: "void".to_string(),
        body: String::new(),
        meta: Meta::new(),
    }
}

#[test]
fn manifest_lists_the_symbols_as_json() {
    let model = vec![TsModule {
        name: "pyxel".to_string(),
        functions: vec![named("cls")],
        classes: vec![TsClass { name: "Image".to_string(), methods: vec![named("new"), named("width")] }],
    }];
    assert_eq!(
        exported_functions_manifest(&model),
        Ok("[\"_cls\",\"_Image_new\",\"_Image_width\"]".to_string())
    );
    let none: Vec<TsModule> = vec![];
    assert_eq!(exported_functions_manifest(&none), Ok("[]".to_string()));
}

#[test]
fn manifest_escapes_what_json_cannot_hold() {
    let model = vec![TsModule {
        name: "m".to_string(),
        functions: vec![named("a\"b"), named("c\\d"), named("e\nf")],
        classes: vec![],
    }];
    assert_eq!(
        exported_functions_manifest(&model),
        Ok("[\"_a\\\"b\",\"_c\\\\d\",\"_e\\nf\"]".to_string())
    );
}

#[test]
fn manifest_takes_the_serializer_outcome() {
    assert_eq!(manifest_from(Ok("[]".to_string())), Ok("[]".to_string()));
    let failure = serde_json::from_str::<Vec<String>>("not json").unwrap_err();
    assert_eq!(manifest_from(Err(failure)), Err(ManifestError::NotSerialized));
}
