use prag::LanguageTypeRegistry;
use prag::ResolveError;
use prag::TypeMapping;
use prag::TypeIR;
use prag::athlete_struct_def;
use prag::cpp_type;
use prag::cpp_type_registry;
use prag::register_cpp_language;
use prag::rust_type_to_cpp;
use prag::validate_struct;

fn entry(key: &str, target: &str, default_value: &str) -> (String, TypeMapping) {
    (
        key.to_string(),
        TypeMapping { target: target.to_string(), default_value: default_value.to_string() },
    )
}

fn tiny_registry() -> LanguageTypeRegistry {
    LanguageTypeRegistry {
        primitives: vec![entry("int32", "i32", "0")],
        generics: vec![
            entry("optional", "Opt<{0}>", "None"),
            entry("list", "List<{0}>", "[]"),
            entry("map", "Map<{0}, {1}>", "{}"),
        ],
    }
}

#[test]
fn recursive_resolution_substitutes_in_nesting_order() {
    let reg = tiny_registry();
    let ty = TypeIR::Generic(
        "list".to_string(),
        vec![TypeIR::Generic(
            "optional".to_string(),
            vec![TypeIR::Primitive("int32".to_string())],
        )],
    );
    assert_eq!(rust_type_to_cpp(&ty, &reg).unwrap(), "List<Opt<i32>>");
}

#[test]
fn map_with_one_argument_is_an_arity_mismatch() {
    let reg = tiny_registry();
    let ty = TypeIR::Generic("map".to_string(), vec![TypeIR::Primitive("int32".to_string())]);
    match rust_type_to_cpp(&ty, &reg) {
        Err(ResolveError::ArityMismatch { constructor, expected, actual }) => {
            assert_eq!(constructor, "map");
            assert_eq!(expected, 2);
            assert_eq!(actual, 1);
        },
        other => panic!("expected an arity mismatch, got {:?}", other),
    }
}

#[test]
fn optional_with_zero_or_two_arguments_is_an_arity_mismatch() {
    let reg = tiny_registry();
    let none = TypeIR::Generic("optional".to_string(), vec![]);
    match rust_type_to_cpp(&none, &reg) {
        Err(ResolveError::ArityMismatch { constructor, expected, actual }) => {
            assert_eq!(constructor, "optional");
            assert_eq!(expected, 1);
            assert_eq!(actual, 0);
        },
        other => panic!("expected an arity mismatch, got {:?}", other),
    }
    let two = TypeIR::Generic(
        "optional".to_string(),
        vec![
            TypeIR::Primitive("int32".to_string()),
            TypeIR::Primitive("int32".to_string()),
        ],
    );
    match rust_type_to_cpp(&two, &reg) {
        Err(ResolveError::ArityMismatch { constructor, expected, actual }) => {
            assert_eq!(constructor, "optional");
            assert_eq!(expected, 1);
            assert_eq!(actual, 2);
        },
        other => panic!("expected an arity mismatch, got {:?}", other),
    }
}

#[test]
fn unknown_constructor_is_an_error_never_a_placeholder() {
    let reg = tiny_registry();
    let ty = TypeIR::Generic("weird".to_string(), vec![TypeIR::Primitive("int32".to_string())]);
    match rust_type_to_cpp(&ty, &reg) {
        Err(ResolveError::UnknownGenericConstructor { name }) => assert_eq!(name, "weird"),
        other => panic!("expected an unknown-constructor error, got {:?}", other),
    }
}

#[test]
fn unknown_primitive_is_reported_with_its_name() {
    let reg = tiny_registry();
    let ty = TypeIR::Primitive("float128".to_string());
    match rust_type_to_cpp(&ty, &reg) {
        Err(ResolveError::UnknownPrimitive { name }) => assert_eq!(name, "float128"),
        other => panic!("expected an unknown-primitive error, got {:?}", other),
    }
}

#[test]
fn named_types_pass_through_unchanged() {
    let reg = tiny_registry();
    let ty = TypeIR::Named("Address".to_string());
    assert_eq!(rust_type_to_cpp(&ty, &reg).unwrap(), "Address");
}

#[test]
fn cpp_registry_resolves_nested_containers() {
    let reg = cpp_type_registry();
    let ty = TypeIR::Generic(
        "Option".to_string(),
        vec![TypeIR::Generic(
            "Vec".to_string(),
            vec![TypeIR::Primitive("i32".to_string())],
        )],
    );
    assert_eq!(
        rust_type_to_cpp(&ty, &reg).unwrap(),
        "std::optional<std::vector<int32_t>>"
    );
    let map = TypeIR::Generic(
        "HashMap".to_string(),
        vec![
            TypeIR::Primitive("String".to_string()),
            TypeIR::Generic(
                "Option".to_string(),
                vec![TypeIR::Primitive("i64".to_string())],
            ),
        ],
    );
    assert_eq!(
        rust_type_to_cpp(&map, &reg).unwrap(),
        "std::map<std::string, std::optional<int64_t>>"
    );
}

#[test]
fn variadic_tuple_joins_all_arguments() {
    let reg = cpp_type_registry();
    let ty = TypeIR::Generic(
        "tuple".to_string(),
        vec![
            TypeIR::Primitive("bool".to_string()),
            TypeIR::Primitive("u8".to_string()),
            TypeIR::Primitive("String".to_string()),
        ],
    );
    assert_eq!(
        rust_type_to_cpp(&ty, &reg).unwrap(),
        "std::tuple<bool, uint8_t, std::string>"
    );
}

#[test]
fn textual_types_resolve_through_the_same_tables() {
    let lang = register_cpp_language();
    assert_eq!(cpp_type(&lang, "i32"), "int32_t");
    assert_eq!(cpp_type(&lang, "Vec<i32>"), "std::vector<int32_t>");
    assert_eq!(cpp_type(&lang, "Option<String>"), "std::optional<std::string>");
    assert_eq!(
        cpp_type(&lang, "Vec<Option<u64>>"),
        "std::vector<std::optional<uint64_t>>"
    );
    assert_eq!(cpp_type(&lang, "datetime"), "std::chrono::system_clock::time_point");
    assert_eq!(cpp_type(&lang, "MyClass"), "MyClass");
}

#[test]
fn sample_shapes_hold_plain_values() {
    let athlete = prag::Athlete {
        athlete: 11,
        team1: Some(3),
        last: Some("Doe".to_string()),
        first: None,
        initial: None,
        sex: "F".to_string(),
        birth: 820454400,
        age: 29,
        id_no: "A-11".to_string(),
        inactive: false,
    };
    let team = prag::Team {
        team_id: 3,
        name: "Sharks".to_string(),
        athletes: vec![athlete],
    };
    let meet = prag::Meet {
        meet_id: 1,
        name: "Spring Open".to_string(),
        teams: vec![team],
        results: vec![(3, 1)],
    };
    assert_eq!(meet.teams[0].athletes[0].athlete, 11);
    assert_eq!(meet.results[0], (3, 1));
}

#[test]
fn validation_accepts_the_athlete_definition() {
    let reg = cpp_type_registry();
    let def = athlete_struct_def();
    assert!(validate_struct(&def, &reg).is_ok());
}

#[test]
fn validation_reports_struct_field_and_cause() {
    let reg = tiny_registry();
    let def = athlete_struct_def();
    let failure = validate_struct(&def, &reg).unwrap_err();
    assert_eq!(failure.struct_name, "Athlete");
    assert_eq!(failure.field_name, "id");
    match failure.cause {
        ResolveError::UnknownPrimitive { name } => assert_eq!(name, "u64"),
        other => panic!("expected an unknown-primitive cause, got {:?}", other),
    }
}
