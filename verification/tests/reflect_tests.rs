use prag::Address;
use prag::Company;
use prag::Contactinfo;
use prag::FieldAttr;
use prag::FieldTuple;
use prag::FieldValue;
use prag::MetaError;
use prag::Person;
use prag::PrimValue;
use prag::Project;
use prag::ReflectionArena;
use prag::User;
use prag::eq_meta;
use prag::hash_meta;
use prag::render_meta;

fn address(street: &str, city: &str, zipcode: &str, country: &str) -> Address {
    Address {
        street: street.to_string(),
        city: city.to_string(),
        zipcode: zipcode.to_string(),
        country: country.to_string(),
    }
}

fn row(name: &str, attrs: Vec<FieldAttr>, value: FieldValue) -> FieldTuple {
    FieldTuple {
        field_name: name.to_string(),
        column_name: name.to_string(),
        ty_name: "u64".to_string(),
        attrs,
        value,
    }
}

#[test]
fn address_rows_render_in_declaration_order() {
    let a = address("1 Main St", "Springfield", "12345", "US");
    let mut arena = ReflectionArena::new();
    let rows = a.meta_tuples(&mut arena);
    let text = render_meta(&arena, &rows).unwrap();
    assert_eq!(
        text,
        "street: \"1 Main St\"\ncity: \"Springfield\"\nzipcode: \"12345\"\ncountry: \"US\"\n"
    );
}

#[test]
fn nested_values_render_indented() {
    let c = Contactinfo {
        email: "e@x".to_string(),
        phone: "555".to_string(),
        address: address("a", "b", "c", "d"),
        previousaddresses: vec![],
    };
    let mut arena = ReflectionArena::new();
    let rows = c.meta_tuples(&mut arena);
    let text = render_meta(&arena, &rows).unwrap();
    assert_eq!(
        text,
        "email: \"e@x\"\nphone: \"555\"\naddress: <Nested>\n  street: \"a\"\n  city: \"b\"\n  zipcode: \"c\"\n  country: \"d\"\npreviousaddresses: <Vec<Nested>>\n"
    );
}

#[test]
fn empty_sequence_reflects_as_an_empty_sequence_node() {
    let p = Project {
        name: "n".to_string(),
        description: "d".to_string(),
        tags: vec![],
    };
    let mut arena = ReflectionArena::new();
    let rows = p.meta_tuples(&mut arena);
    match &rows[2].value {
        FieldValue::VecOfPrimitive(items) => assert!(items.is_empty()),
        other => panic!("expected an empty sequence node, got {:?}", other),
    }
    let text = render_meta(&arena, &rows).unwrap();
    assert_eq!(text, "name: \"n\"\ndescription: \"d\"\ntags: []\n");
}

#[test]
fn absent_optional_is_distinct_from_a_zero_value() {
    let alone = Person {
        id: 7,
        name: "Jo".to_string(),
        address: address("s", "c", "z", "k"),
        tags: vec![],
        spouse: None,
    };
    let mut arena = ReflectionArena::new();
    let rows = alone.meta_tuples(&mut arena);
    match &rows[4].value {
        FieldValue::OptionalNested(None) => {},
        other => panic!("expected the absent variant, got {:?}", other),
    }
    assert!(!matches!(&rows[4].value, FieldValue::Primitive(_)));
    let text = render_meta(&arena, &rows).unwrap();
    assert!(text.ends_with("spouse: None\n"));
}

#[test]
fn present_spouse_renders_recursively() {
    let spouse = Person {
        id: 2,
        name: "Jane".to_string(),
        address: address("s2", "c2", "z2", "k2"),
        tags: vec!["partner".to_string()],
        spouse: None,
    };
    let person = Person {
        id: 1,
        name: "John".to_string(),
        address: address("s1", "c1", "z1", "k1"),
        tags: vec!["developer".to_string(), "rustacean".to_string()],
        spouse: Some(Box::new(spouse)),
    };
    let mut arena = ReflectionArena::new();
    let rows = person.meta_tuples(&mut arena);
    let text = render_meta(&arena, &rows).unwrap();
    assert!(text.starts_with("id: 1\nname: \"John\"\naddress: <Nested>\n  street: \"s1\"\n"));
    assert!(text.contains("tags: [\"developer\", \"rustacean\"]\n"));
    assert!(text.contains("spouse: <Optional Nested>\n  id: 2\n  name: \"Jane\"\n"));
    assert!(text.contains("  spouse: None\n"));
}

#[test]
fn negative_numbers_render_with_a_sign() {
    let rows = vec![row("x", vec![], FieldValue::Primitive(PrimValue::I64(-5)))];
    let arena = ReflectionArena::new();
    let text = render_meta(&arena, &rows).unwrap();
    assert_eq!(text, "x: -5\n");
}

#[test]
fn excluded_fields_are_left_out_of_the_rendering() {
    let rows = vec![
        row("shown", vec![], FieldValue::Primitive(PrimValue::U64(1))),
        row(
            "hidden",
            vec![FieldAttr::ExcludeString],
            FieldValue::Primitive(PrimValue::U64(2)),
        ),
    ];
    let arena = ReflectionArena::new();
    let text = render_meta(&arena, &rows).unwrap();
    assert_eq!(text, "shown: 1\n");
}

#[test]
fn hash_ignores_fields_flagged_exclude_hash() {
    let arena = ReflectionArena::new();
    let base = vec![
        row("a", vec![], FieldValue::Primitive(PrimValue::U64(1))),
        row(
            "b",
            vec![FieldAttr::ExcludeHash],
            FieldValue::Primitive(PrimValue::U64(2)),
        ),
    ];
    let excluded_changed = vec![
        row("a", vec![], FieldValue::Primitive(PrimValue::U64(1))),
        row(
            "b",
            vec![FieldAttr::ExcludeHash],
            FieldValue::Primitive(PrimValue::U64(99)),
        ),
    ];
    let included_changed = vec![
        row("a", vec![], FieldValue::Primitive(PrimValue::U64(5))),
        row(
            "b",
            vec![FieldAttr::ExcludeHash],
            FieldValue::Primitive(PrimValue::U64(2)),
        ),
    ];
    let h0 = hash_meta(&arena, &base).unwrap();
    let h1 = hash_meta(&arena, &excluded_changed).unwrap();
    let h2 = hash_meta(&arena, &included_changed).unwrap();
    assert_eq!(h0, h1);
    assert_ne!(h0, h2);
}

#[test]
fn hash_is_deterministic() {
    let a = address("x", "y", "z", "w");
    let mut arena1 = ReflectionArena::new();
    let rows1 = a.meta_tuples(&mut arena1);
    let b = address("x", "y", "z", "w");
    let mut arena2 = ReflectionArena::new();
    let rows2 = b.meta_tuples(&mut arena2);
    assert_eq!(
        hash_meta(&arena1, &rows1).unwrap(),
        hash_meta(&arena2, &rows2).unwrap()
    );
}

#[test]
fn equality_ignores_fields_flagged_exclude_compare() {
    let arena = ReflectionArena::new();
    let x = vec![
        row("a", vec![], FieldValue::Primitive(PrimValue::Str("same".to_string()))),
        row(
            "b",
            vec![FieldAttr::ExcludeCompare],
            FieldValue::Primitive(PrimValue::U64(2)),
        ),
    ];
    let y = vec![
        row("a", vec![], FieldValue::Primitive(PrimValue::Str("same".to_string()))),
        row(
            "b",
            vec![FieldAttr::ExcludeCompare],
            FieldValue::Primitive(PrimValue::U64(77)),
        ),
    ];
    let z = vec![
        row("a", vec![], FieldValue::Primitive(PrimValue::Str("other".to_string()))),
        row(
            "b",
            vec![FieldAttr::ExcludeCompare],
            FieldValue::Primitive(PrimValue::U64(2)),
        ),
    ];
    assert_eq!(eq_meta(&arena, &x, &arena, &y).unwrap(), true);
    assert_eq!(eq_meta(&arena, &x, &arena, &z).unwrap(), false);
}

#[test]
fn equality_descends_into_nested_entries() {
    let c1 = Company {
        name: "Acme".to_string(),
        headquarters: address("hq", "c", "z", "k"),
        taxid: "t1".to_string(),
        offices: vec![("east".to_string(), address("e", "c", "z", "k"))],
    };
    let c2 = Company {
        name: "Acme".to_string(),
        headquarters: address("hq", "c", "z", "k"),
        taxid: "t1".to_string(),
        offices: vec![("east".to_string(), address("e", "c", "z", "k"))],
    };
    let c3 = Company {
        name: "Acme".to_string(),
        headquarters: address("hq", "c", "z", "k"),
        taxid: "t1".to_string(),
        offices: vec![("east".to_string(), address("OTHER", "c", "z", "k"))],
    };
    let mut a1 = ReflectionArena::new();
    let r1 = c1.meta_tuples(&mut a1);
    let mut a2 = ReflectionArena::new();
    let r2 = c2.meta_tuples(&mut a2);
    let mut a3 = ReflectionArena::new();
    let r3 = c3.meta_tuples(&mut a3);
    assert_eq!(eq_meta(&a1, &r1, &a2, &r2).unwrap(), true);
    assert_eq!(eq_meta(&a1, &r1, &a3, &r3).unwrap(), false);
}

#[test]
fn dangling_handles_fail_closed() {
    let arena = ReflectionArena::new();
    let rows = vec![row("bad", vec![], FieldValue::Nested(3))];
    assert_eq!(
        render_meta(&arena, &rows).unwrap_err(),
        MetaError::DanglingReflectionReference { handle: 3 }
    );
    assert_eq!(
        hash_meta(&arena, &rows).unwrap_err(),
        MetaError::DanglingReflectionReference { handle: 3 }
    );
    assert_eq!(
        eq_meta(&arena, &rows, &arena, &rows).unwrap_err(),
        MetaError::DanglingReflectionReference { handle: 3 }
    );
}

#[test]
fn forward_references_are_dangling_too() {
    let mut arena = ReflectionArena::new();
    let self_referencing = vec![row("loop", vec![], FieldValue::Nested(0))];
    let h = arena.push_entry(self_referencing);
    assert_eq!(h, 0);
    let rows = vec![row("root", vec![], FieldValue::Nested(0))];
    assert_eq!(
        render_meta(&arena, &rows).unwrap_err(),
        MetaError::DanglingReflectionReference { handle: 0 }
    );
}

#[test]
fn user_reflection_covers_every_aggregate_shape() {
    let user = User {
        name: "Ada".to_string(),
        age: -30,
        id: "u1".to_string(),
        data: "blob".to_string(),
        contact: Contactinfo {
            email: "a@x".to_string(),
            phone: "1".to_string(),
            address: address("s", "c", "z", "k"),
            previousaddresses: vec![address("old", "c", "z", "k")],
        },
        employer: Company {
            name: "Acme".to_string(),
            headquarters: address("hq", "c", "z", "k"),
            taxid: "t".to_string(),
            offices: vec![("east".to_string(), address("e", "c", "z", "k"))],
        },
        projects: vec![Project {
            name: "p1".to_string(),
            description: "d1".to_string(),
            tags: vec!["x".to_string()],
        }],
        metadata: vec![("k1".to_string(), "v1".to_string())],
        investments: vec![(
            "fund".to_string(),
            Company {
                name: "Fund".to_string(),
                headquarters: address("f", "c", "z", "k"),
                taxid: "ft".to_string(),
                offices: vec![],
            },
        )],
        nested: vec![(vec![("ik".to_string(), "iv".to_string())], 9)],
    };
    let mut arena = ReflectionArena::new();
    let rows = user.meta_tuples(&mut arena);
    assert_eq!(rows.len(), 10);
    let names: Vec<&str> = rows.iter().map(|r| r.field_name.as_str()).collect();
    assert_eq!(
        names,
        vec![
            "name",
            "age",
            "id",
            "data",
            "contact",
            "employer",
            "projects",
            "metadata",
            "investments",
            "nested"
        ]
    );
    let text = render_meta(&arena, &rows).unwrap();
    assert!(text.starts_with("name: \"Ada\"\nage: -30\nid: \"u1\"\ndata: \"blob\"\n"));
    assert!(text.contains("contact: <Nested>\n  email: \"a@x\"\n"));
    assert!(text.contains("employer: <Nested>\n  name: \"Acme\"\n"));
    assert!(text.contains("metadata: <Vec<Nested>>\n  key: \"k1\"\n  value: \"v1\"\n"));
    assert!(text.contains("investments: <Vec<Nested>>\n  key: \"fund\"\n  value: <Nested>\n"));
    assert!(text.contains("value: 9\n"));
    let mut arena2 = ReflectionArena::new();
    let rows2 = user.meta_tuples(&mut arena2);
    assert_eq!(eq_meta(&arena, &rows, &arena2, &rows2).unwrap(), true);
    assert_eq!(
        hash_meta(&arena, &rows).unwrap(),
        hash_meta(&arena2, &rows2).unwrap()
    );
}

#[test]
fn one_line_summaries_show_primitives_and_hide_nested_detail() {
    let prim = row("p", vec![], FieldValue::Primitive(PrimValue::Str("v".to_string())));
    assert_eq!(prim.fmt(), "p = Primitive(\"v\")");
    let nested = row("n", vec![], FieldValue::Nested(0));
    assert_eq!(nested.fmt(), "n = Nested(<MetaTuple>)");
    let list = row(
        "l",
        vec![],
        FieldValue::VecOfPrimitive(vec![PrimValue::U64(1), PrimValue::U64(2)]),
    );
    assert_eq!(list.fmt(), "l = VecOfPrimitive([1, 2])");
    let absent = row("o", vec![], FieldValue::OptionalPrimitive(None));
    assert_eq!(absent.fmt(), "o = OptionalPrimitive(None)");
    let present = row(
        "o2",
        vec![],
        FieldValue::OptionalPrimitive(Some(PrimValue::Bool(true))),
    );
    assert_eq!(present.fmt(), "o2 = OptionalPrimitive(Some(true))");
}

#[test]
fn constructors_start_empty() {
    assert_eq!(Address::table_name(), "address");
    assert_eq!(Project::table_name(), "project");
    assert_eq!(Contactinfo::table_name(), "contactinfo");
    assert_eq!(Company::table_name(), "company");
    assert_eq!(User::table_name(), "user");
    let a = Address::new();
    assert_eq!(a.street, "");
    let p = Project::new();
    assert!(p.tags.is_empty());
    let c = Contactinfo::new();
    assert!(c.previousaddresses.is_empty());
    let co = Company::new();
    assert!(co.offices.is_empty());
    let u = User::new();
    assert_eq!(u.age, 0);
    assert!(u.nested.is_empty());
}
