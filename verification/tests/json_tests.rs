use prag::FieldDef;
use prag::StructDef;
use prag::TypeIR;
use prag::athlete_struct_def;
use prag::generate_prag_json_struct;
use prag::module_json;
use prag::module_json_pretty;
use prag::rust_type_to_prag_json;

#[test]
fn primitive_and_named_types_share_the_primitive_kind() {
    let p = TypeIR::Primitive("i32".to_string());
    assert_eq!(
        rust_type_to_prag_json(&p),
        "{\"kind\":\"primitive\",\"name\":\"i32\"}"
    );
    let n = TypeIR::Named("Address".to_string());
    assert_eq!(
        rust_type_to_prag_json(&n),
        "{\"kind\":\"primitive\",\"name\":\"Address\"}"
    );
}

#[test]
fn generic_types_carry_their_arguments_in_order() {
    let ty = TypeIR::Generic(
        "Option".to_string(),
        vec![TypeIR::Generic(
            "Vec".to_string(),
            vec![TypeIR::Primitive("i32".to_string())],
        )],
    );
    assert_eq!(
        rust_type_to_prag_json(&ty),
        "{\"args\":[{\"args\":[{\"kind\":\"primitive\",\"name\":\"i32\"}],\"kind\":\"generic\",\"name\":\"Vec\"}],\"kind\":\"generic\",\"name\":\"Option\"}"
    );
}

#[test]
fn hash_containers_get_their_canonical_wire_names() {
    let map = TypeIR::Generic(
        "HashMap".to_string(),
        vec![
            TypeIR::Primitive("String".to_string()),
            TypeIR::Primitive("i64".to_string()),
        ],
    );
    assert_eq!(
        rust_type_to_prag_json(&map),
        "{\"args\":[{\"kind\":\"primitive\",\"name\":\"String\"},{\"kind\":\"primitive\",\"name\":\"i64\"}],\"kind\":\"generic\",\"name\":\"Map\"}"
    );
    let set = TypeIR::Generic(
        "HashSet".to_string(),
        vec![TypeIR::Primitive("u8".to_string())],
    );
    assert_eq!(
        rust_type_to_prag_json(&set),
        "{\"args\":[{\"kind\":\"primitive\",\"name\":\"u8\"}],\"kind\":\"generic\",\"name\":\"Set\"}"
    );
}

#[test]
fn struct_description_lists_fields_in_order() {
    let def = athlete_struct_def();
    assert_eq!(
        generate_prag_json_struct(&def),
        "{\"fields\":[{\"name\":\"id\",\"type\":{\"kind\":\"primitive\",\"name\":\"u64\"}},{\"name\":\"name\",\"type\":{\"kind\":\"primitive\",\"name\":\"String\"}},{\"name\":\"scores\",\"type\":{\"args\":[{\"kind\":\"primitive\",\"name\":\"i32\"}],\"kind\":\"generic\",\"name\":\"Vec\"}}],\"name\":\"Athlete\",\"type\":\"Struct\"}"
    );
}

#[test]
fn module_description_wraps_every_struct() {
    let def = athlete_struct_def();
    let empty = StructDef {
        name: "Unit".to_string(),
        table_name: "unit".to_string(),
        fields: vec![],
    };
    let compact = module_json(&vec![def, empty]);
    assert!(compact.starts_with("{\"items\":[{\"fields\":["));
    assert!(compact.ends_with(
        ",{\"fields\":[],\"name\":\"Unit\",\"type\":\"Struct\"}],\"type\":\"Module\"}"
    ));
}

#[test]
fn names_are_escaped() {
    let ty = TypeIR::Primitive("we\"ird".to_string());
    assert_eq!(
        rust_type_to_prag_json(&ty),
        "{\"kind\":\"primitive\",\"name\":\"we\\\"ird\"}"
    );
    let ctrl = TypeIR::Primitive("\u{1}x\\\n".to_string());
    assert_eq!(
        rust_type_to_prag_json(&ctrl),
        "{\"kind\":\"primitive\",\"name\":\"\\u0001x\\\\\\n\"}"
    );
}

#[test]
fn pretty_output_is_the_reformatted_compact_document() {
    let def = athlete_struct_def();
    let items = vec![def];
    let compact = module_json(&items);
    let value: serde_json::Value = serde_json::from_str(&compact).unwrap();
    let expected = serde_json::to_string_pretty(&value).unwrap();
    let pretty = module_json_pretty(&items).unwrap();
    assert_eq!(pretty, expected);
    let reparsed: serde_json::Value = serde_json::from_str(&pretty).unwrap();
    assert_eq!(reparsed, value);
    assert_eq!(value["type"], serde_json::Value::String("Module".to_string()));
    assert_eq!(value["items"][0]["name"], serde_json::Value::String("Athlete".to_string()));
}

#[test]
fn field_definitions_only_contribute_name_and_type() {
    let def = StructDef {
        name: "One".to_string(),
        table_name: "ones".to_string(),
        fields: vec![FieldDef {
            field_name: "x".to_string(),
            ty: TypeIR::Primitive("bool".to_string()),
            table_col: "col_x".to_string(),
            csv_col: "X".to_string(),
            attrs: vec![],
        }],
    };
    let text = generate_prag_json_struct(&def);
    assert_eq!(
        text,
        "{\"fields\":[{\"name\":\"x\",\"type\":{\"kind\":\"primitive\",\"name\":\"bool\"}}],\"name\":\"One\",\"type\":\"Struct\"}"
    );
    assert!(!text.contains("col_x"));
}
