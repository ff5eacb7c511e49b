use cozo::typing::{split_str, trim_str, Typing};

fn s(x: &str) -> String {
    x.to_string()
}

#[test]
fn parses_primitive() {
    assert_eq!(Typing::parse("  Int "), Ok(Typing::Prim(s("Int"))));
}

#[test]
fn parses_named_tuple() {
    let t = Typing::parse("{id: Int, name : Str}").unwrap();
    assert_eq!(
        t,
        Typing::Tuple(vec![(s("id"), s("Int")), (s("name"), s("Str"))])
    );
    assert_eq!(
        t.extract_named_tuple(),
        Some(vec![(s("id"), s("Int")), (s("name"), s("Str"))])
    );
}

#[test]
fn parses_empty_tuple() {
    assert_eq!(Typing::parse("{ }"), Ok(Typing::Tuple(vec![])));
}

#[test]
fn primitive_is_not_a_named_tuple() {
    assert_eq!(Typing::parse("Int").unwrap().extract_named_tuple(), None);
}

#[test]
fn refuses_malformed_text() {
    for bad in ["", "{id Int}", "{id: Int", "{id: Int,}", "{a: b: c}", "In t", "{1: }"] {
        let e = Typing::parse(bad).unwrap_err();
        assert_eq!(e.text, s(bad));
    }
}

#[test]
fn refuses_duplicate_column_names() {
    assert!(Typing::parse("{a: Int, a: Str}").is_err());
}

#[test]
fn trims_whitespace() {
    assert_eq!(trim_str(" \t ab c \n"), s("ab c"));
    assert_eq!(trim_str("   "), s(""));
}

#[test]
fn splits_at_separator() {
    assert_eq!(split_str("a,b,,c", ','), vec![s("a"), s("b"), s(""), s("c")]);
    assert_eq!(split_str("", ','), vec![s("")]);
}
