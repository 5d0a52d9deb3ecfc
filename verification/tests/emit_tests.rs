use prag::FieldAttr;
use prag::FieldDef;
use prag::StructDef;
use prag::TypeIR;
use prag::athlete_struct_def;
use prag::cpp_type_registry;
use prag::emit;
use prag::generate_cpp_fields;
use prag::generate_cpp_header;
use prag::generate_cpp_struct;
use prag::generate_cpp_struct_and_tuple;
use prag::register_cpp_language;

fn field(name: &str, ty: TypeIR) -> FieldDef {
    FieldDef {
        field_name: name.to_string(),
        ty,
        table_col: name.to_string(),
        csv_col: name.to_string(),
        attrs: vec![],
    }
}

#[test]
fn emit_produces_declaration_alias_and_metadata() {
    let lang = register_cpp_language();
    let def = athlete_struct_def();
    let out = emit(&def, &lang).unwrap();
    assert_eq!(
        out.declaration,
        "struct Athlete {\n    uint64_t id;\n    std::string name;\n    std::vector<int32_t> scores;\n};"
    );
    assert_eq!(
        out.tuple_alias,
        "using AthleteTuple = std::tuple<uint64_t, std::string, std::vector<int32_t>>;"
    );
    assert_eq!(out.metadata.len(), 3);
    assert_eq!(out.metadata[0].field_name, "id");
    assert_eq!(out.metadata[0].table_col, "athlete_id");
    assert_eq!(out.metadata[0].csv_col, "ID");
    assert_eq!(out.metadata[0].resolved_type, "uint64_t");
    assert_eq!(
        out.metadata[0].attrs,
        vec![FieldAttr::PrimaryKey, FieldAttr::Serializable]
    );
    assert_eq!(out.metadata[2].field_name, "scores");
    assert_eq!(out.metadata[2].resolved_type, "std::vector<int32_t>");
}

#[test]
fn emit_is_deterministic() {
    let lang = register_cpp_language();
    let def1 = athlete_struct_def();
    let def2 = athlete_struct_def();
    let a = emit(&def1, &lang).unwrap();
    let b = emit(&def2, &lang).unwrap();
    assert_eq!(a.declaration, b.declaration);
    assert_eq!(a.tuple_alias, b.tuple_alias);
    assert_eq!(a.metadata.len(), b.metadata.len());
    for (x, y) in a.metadata.iter().zip(b.metadata.iter()) {
        assert_eq!(x.field_name, y.field_name);
        assert_eq!(x.resolved_type, y.resolved_type);
        assert_eq!(x.table_col, y.table_col);
        assert_eq!(x.csv_col, y.csv_col);
        assert_eq!(x.attrs, y.attrs);
    }
}

#[test]
fn emit_preserves_field_order_under_permutation() {
    let lang = register_cpp_language();
    let orders: Vec<Vec<&str>> = vec![
        vec!["beta", "alpha", "gamma"],
        vec!["gamma", "beta", "alpha"],
        vec!["alpha", "gamma", "beta"],
    ];
    for order in orders {
        let fields: Vec<FieldDef> = order
            .iter()
            .map(|n| match *n {
                "alpha" => field("alpha", TypeIR::Primitive("i32".to_string())),
                "beta" => field("beta", TypeIR::Primitive("bool".to_string())),
                _ => field("gamma", TypeIR::Primitive("String".to_string())),
            })
            .collect();
        let def = StructDef {
            name: "Mixed".to_string(),
            table_name: "mixed".to_string(),
            fields,
        };
        let out = emit(&def, &lang).unwrap();
        let row_names: Vec<&str> = out.metadata.iter().map(|r| r.field_name.as_str()).collect();
        assert_eq!(row_names, order);
        let decl_lines: Vec<&str> = out.declaration.lines().collect();
        for (i, n) in order.iter().enumerate() {
            assert!(decl_lines[i + 1].ends_with(&format!(" {};", n)));
        }
    }
}

#[test]
fn emit_applies_the_member_naming_rule() {
    let lang = register_cpp_language();
    let def = StructDef {
        name: "contact_card".to_string(),
        table_name: "card".to_string(),
        fields: vec![field("zipCode", TypeIR::Primitive("String".to_string()))],
    };
    let out = emit(&def, &lang).unwrap();
    assert_eq!(
        out.declaration,
        "struct ContactCard {\n    std::string zip_code;\n};"
    );
    assert_eq!(out.metadata[0].field_name, "zipCode");
}

#[test]
fn emit_fails_on_the_first_unresolvable_field() {
    let lang = register_cpp_language();
    let def = StructDef {
        name: "Broken".to_string(),
        table_name: "broken".to_string(),
        fields: vec![
            field("ok", TypeIR::Primitive("bool".to_string())),
            field("bad", TypeIR::Primitive("quaternion".to_string())),
        ],
    };
    let failure = emit(&def, &lang).unwrap_err();
    assert_eq!(failure.struct_name, "Broken");
    assert_eq!(failure.field_name, "bad");
}

#[test]
fn plain_struct_generation_keeps_member_names() {
    let reg = cpp_type_registry();
    let fields = vec![
        ("id".to_string(), TypeIR::Primitive("u64".to_string())),
        (
            "tags".to_string(),
            TypeIR::Generic("Vec".to_string(), vec![TypeIR::Primitive("String".to_string())]),
        ),
    ];
    let decl = generate_cpp_struct("Item", &fields, &reg).unwrap();
    assert_eq!(
        decl,
        "struct Item {\n    uint64_t id;\n    std::vector<std::string> tags;\n};"
    );
    let (decl2, alias) = generate_cpp_struct_and_tuple("Item", &fields, &reg).unwrap();
    assert_eq!(decl2, decl);
    assert_eq!(
        alias,
        "using ItemTuple = std::tuple<uint64_t, std::vector<std::string>>;"
    );
}

#[test]
fn meta_field_lines_carry_attributes() {
    let lang = register_cpp_language();
    let def = athlete_struct_def();
    let out = emit(&def, &lang).unwrap();
    let lines = generate_cpp_fields("Athlete", &out.metadata);
    let expected = "meta::Field<Athlete, uint64_t, &Athlete::id, nullptr, nullptr, PrimaryKey | Serializable>,\n\
meta::Field<Athlete, std::string, &Athlete::name, nullptr, nullptr, Serializable>,\n\
meta::Field<Athlete, std::vector<int32_t>, &Athlete::scores, nullptr, nullptr, Serializable>,\n";
    assert_eq!(lines, expected);
}

#[test]
fn header_contains_struct_meta_and_query() {
    let lang = register_cpp_language();
    let fields = vec![
        ("athlete".to_string(), "int64_t".to_string()),
        ("idNo".to_string(), "std::string".to_string()),
    ];
    let header = generate_cpp_header("Athlete", "athlete", &lang, &fields);
    assert!(header.starts_with("#include <cstdint>\n"));
    assert!(header.contains("struct Athlete {\n    int64_t athlete{};\n    std::string id_no{};\n"));
    assert!(header.contains(
        "        meta::Field<Athlete, int64_t, &Athlete::athlete, nullptr, nullptr, meta::Prop::Serializable>,\n"
    ));
    assert!(header.contains(
        "        meta::Field<Athlete, std::string, &Athlete::id_no, nullptr, nullptr, meta::Prop::Serializable>\n"
    ));
    assert!(header.contains("    static constexpr auto tableName = \"athlete\";\n"));
    assert!(header.contains(
        "    static constexpr auto query = \"SELECT athlete, idNo FROM athlete\";\n"
    ));
    assert!(header.contains("struct MetaTuple<::hytek::tm::Athlete> {\n"));
    assert!(header.ends_with("} // namespace meta\n"));
}
