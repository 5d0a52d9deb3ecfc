use prag::CaseStyle;
use prag::Language;
use prag::cpp_type_registry;
use prag::language_registry;
use prag::lookup;
use prag::register_cpp_language;

#[test]
fn cpp_tables_map_the_rust_vocabulary() {
    let reg = cpp_type_registry();
    assert_eq!(lookup(&reg.primitives, "i32").unwrap().target, "int32_t");
    assert_eq!(lookup(&reg.primitives, "String").unwrap().target, "std::string");
    assert_eq!(
        lookup(&reg.primitives, "datetime").unwrap().target,
        "std::chrono::system_clock::time_point"
    );
    assert_eq!(lookup(&reg.generics, "Vec").unwrap().target, "std::vector<{0}>");
    assert_eq!(lookup(&reg.generics, "HashMap").unwrap().target, "std::map<{0}, {1}>");
    assert!(lookup(&reg.primitives, "i128").is_none());
    assert!(lookup(&reg.generics, "BTreeMap").is_none());
}

#[test]
fn the_cpp_language_carries_its_naming_rules() {
    let lang = register_cpp_language();
    assert_eq!(lang.name, "CPP26");
    assert_eq!(lang.file_ext, "hpp");
    assert_eq!(lang.comment_style, "//");
    assert_eq!(lang.naming.class_name, CaseStyle::Pascal);
    assert_eq!(lang.naming.private_member, CaseStyle::Snake);
    assert_eq!(lang.naming.public_member, CaseStyle::Camel);
    assert_eq!(lang.naming.getter_name, CaseStyle::Pascal);
}

#[test]
fn the_built_in_registry_covers_five_languages() {
    let reg = language_registry();
    assert_eq!(reg.len(), 5);
    let langs: Vec<Language> = reg.iter().map(|(l, _)| *l).collect();
    assert_eq!(
        langs,
        vec![
            Language::Cpp26,
            Language::Python,
            Language::Rust,
            Language::Typescript,
            Language::Go
        ]
    );
}

#[test]
fn every_built_in_language_maps_the_neutral_vocabulary() {
    let vocabulary = [
        "bool", "int8", "uint8", "int16", "uint16", "int32", "uint32", "int64", "uint64",
        "float32", "float64", "string", "bytes",
    ];
    for (_, info) in language_registry() {
        for name in vocabulary {
            assert!(
                lookup(&info.types.primitives, name).is_some(),
                "{} lacks {}",
                info.name,
                name
            );
        }
        for ctor in ["list", "map", "set", "optional"] {
            assert!(
                lookup(&info.types.generics, ctor).is_some(),
                "{} lacks {}",
                info.name,
                ctor
            );
        }
    }
}

#[test]
fn language_specific_renderings_come_from_the_tables() {
    let reg = language_registry();
    let python = &reg[1].1;
    assert_eq!(lookup(&python.types.primitives, "string").unwrap().target, "str");
    assert_eq!(lookup(&python.types.generics, "optional").unwrap().target, "Optional[{0}]");
    assert_eq!(lookup(&python.types.generics, "optional").unwrap().default_value, "None");
    let rust = &reg[2].1;
    assert_eq!(lookup(&rust.types.primitives, "bytes").unwrap().target, "Vec<u8>");
    let ts = &reg[3].1;
    assert_eq!(lookup(&ts.types.primitives, "int64").unwrap().target, "bigint");
    let go = &reg[4].1;
    assert_eq!(lookup(&go.types.generics, "set").unwrap().target, "map[{0}]struct{}");
    let cpp = &reg[0].1;
    assert_eq!(
        lookup(&cpp.types.generics, "optional").unwrap().default_value,
        "std::nullopt"
    );
}
