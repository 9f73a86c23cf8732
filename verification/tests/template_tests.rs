use embedding_server::template::render;

fn pairs(ps: &[(&str, &str)]) -> Vec<(String, String)> {
    ps.iter().map(|(k, v)| (k.to_string(), v.to_string())).collect()
}

#[test]
fn substitutes_a_bound_placeholder() {
    let vars = pairs(&[("context", "hello world")]);
    assert_eq!(render("Summarize: {context}", &vars), "Summarize: hello world");
}

#[test]
fn keeps_an_unbound_placeholder_verbatim() {
    let vars = pairs(&[]);
    assert_eq!(render("Hi {name}!", &vars), "Hi {name}!");
}

#[test]
fn never_fails_on_a_template_with_missing_variables() {
    let vars = pairs(&[("other", "x")]);
    assert_eq!(render("{a} and {b} and {other}", &vars), "{a} and {b} and x");
}

#[test]
fn ignores_whitespace_around_the_name() {
    let vars = pairs(&[("x", "1")]);
    assert_eq!(render("a { x } b", &vars), "a 1 b");
}

#[test]
fn a_name_with_inner_whitespace_does_not_match() {
    let vars = pairs(&[("a", "1"), ("a b", "2")]);
    assert_eq!(render("{a b}", &vars), "{a b}");
}

#[test]
fn does_not_substitute_recursively() {
    let vars = pairs(&[("a", "{b}"), ("b", "c")]);
    assert_eq!(render("{a}", &vars), "{b}");
}

#[test]
fn renders_the_empty_template() {
    let vars = pairs(&[("a", "1")]);
    assert_eq!(render("", &vars), "");
}

#[test]
fn substitutes_several_placeholders_left_to_right() {
    let vars = pairs(&[("first", "one"), ("second", "two")]);
    assert_eq!(render("{first}, {second}, {first}", &vars), "one, two, one");
}

#[test]
fn empty_braces_stay_verbatim() {
    let vars = pairs(&[("", "x")]);
    assert_eq!(render("{} and { }", &vars), "{} and { }");
}

#[test]
fn the_first_entry_of_a_repeated_key_wins() {
    let vars = pairs(&[("k", "first"), ("k", "second")]);
    assert_eq!(render("{k}", &vars), "first");
}

#[test]
fn a_fully_bound_template_renders_without_placeholders() {
    let vars = pairs(&[("a", "x"), ("b", "y z")]);
    let out = render("{a} mid {b} end", &vars);
    assert!(!out.contains('{'));
    assert_eq!(out, "x mid y z end");
}

#[test]
fn text_without_braces_is_returned_unchanged() {
    let vars = pairs(&[("a", "1")]);
    assert_eq!(render("plain text, no vars } here", &vars), "plain text, no vars } here");
}

#[test]
fn matches_the_template_crate_on_many_inputs() {
    let cases: &[&str] = &[
        "",
        "plain text",
        "{a}",
        "{ a }",
        "{a} {b}",
        "{missing}",
        "left { a } right",
        "{a b}",
        "{}",
        "{ }",
        "{{a}",
        "{a}}",
        "{ {a}",
        "nested {a} and {b} and {c}",
        "unicode \u{00e9}\u{00a0}{a}\u{3000}end",
        "brace } alone { here",
        "{a}{b}{a}",
        "tab\t{a}\tend",
    ];
    let vars = pairs(&[("a", "alpha"), ("b", "beta"), ("c", "{a}")]);
    for t in cases {
        let map: std::collections::HashMap<&str, String> =
            vars.iter().map(|(k, v)| (k.as_str(), v.clone())).collect();
        let expected = new_string_template::template::Template::new(*t).render_nofail(&map);
        assert_eq!(render(t, &vars), expected, "template {:?}", t);
    }
}
