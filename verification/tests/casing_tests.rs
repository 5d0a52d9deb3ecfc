use prag::to_camel_case;
use prag::to_pascal_case;
use prag::to_snake_case;

#[test]
fn pascal_splits_on_underscores() {
    assert_eq!(to_pascal_case("foo_bar"), "FooBar");
    assert_eq!(to_pascal_case("athlete_name"), "AthleteName");
    assert_eq!(to_pascal_case("already"), "Already");
    assert_eq!(to_pascal_case(""), "");
}

#[test]
fn camel_is_pascal_with_first_letter_lowered() {
    assert_eq!(to_camel_case("foo_bar"), "fooBar");
    assert_eq!(to_pascal_case("foo_bar"), "FooBar");
    let c = to_camel_case("zip_code_value");
    let p = to_pascal_case("zip_code_value");
    assert_eq!(c.len(), p.len());
    assert_eq!(&c[1..], &p[1..]);
    assert_eq!(c.chars().next().unwrap(), 'z');
    assert_eq!(p.chars().next().unwrap(), 'Z');
}

#[test]
fn snake_inserts_separator_before_inner_uppercase() {
    assert_eq!(to_snake_case("zipCode"), "zip_code");
    assert_eq!(to_snake_case("FooBar"), "foo_bar");
    assert_eq!(to_snake_case("already_snake"), "already_snake");
}

#[test]
fn snake_is_idempotent() {
    let once = to_snake_case("FooBarBaz");
    let twice = to_snake_case(&once);
    assert_eq!(once, "foo_bar_baz");
    assert_eq!(twice, once);
    let once2 = to_snake_case("mixedCase_input");
    assert_eq!(to_snake_case(&once2), once2);
}

#[test]
fn camel_after_snake_reproduces_camel_identifiers() {
    for ident in ["fooBar", "fooBar9Baz", "a", "someLongFieldName"] {
        let snake = to_snake_case(ident);
        assert_eq!(to_camel_case(&snake), ident);
    }
}

#[test]
fn snake_collapses_pascal_idempotently() {
    let p = to_pascal_case("word_one_two");
    assert_eq!(to_snake_case(&p), "word_one_two");
    assert_eq!(to_snake_case(&to_snake_case(&p)), "word_one_two");
}
