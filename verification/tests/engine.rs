use boots_core::template::TemplateEngine;

#[test]
fn test_render_simple() {
    let mut engine = TemplateEngine::new();
    engine.set("name", "test-project");

    let result = engine.render("Project: {{name}}");
    assert_eq!(result, "Project: test-project");
}

#[test]
fn test_render_multiple_variables() {
    let mut engine = TemplateEngine::new();
    engine.set("name", "my-app");
    engine.set("version", "0.1.0");

    let template = "name = \"{{name}}\"\nversion = \"{{version}}\"";
    let result = engine.render(template);

    assert!(result.contains("name = \"my-app\""));
    assert!(result.contains("version = \"0.1.0\""));
}

#[test]
fn render_is_single_pass() {
    let mut engine = TemplateEngine::new();
    engine.set("a", "{{b}}");
    engine.set("b", "X");
    assert_eq!(engine.render("{{a}}"), "{{b}}");

    let mut other = TemplateEngine::new();
    other.set("b", "X");
    other.set("a", "{{b}}");
    assert_eq!(other.render("{{a}}"), "{{b}}");
    assert_eq!(other.render("{{a}}{{b}}"), "{{b}}X");
}

#[test]
fn render_keeps_unknown_tokens() {
    let engine = TemplateEngine::new();
    assert_eq!(engine.render("{{unset}}"), "{{unset}}");

    let mut bound = TemplateEngine::new();
    bound.set("name", "x");
    assert_eq!(bound.render("a {{unset}} b {{name}} c"), "a {{unset}} b x c");
}

#[test]
fn render_of_empty_and_plain_text() {
    let mut engine = TemplateEngine::new();
    engine.set("name", "x");
    assert_eq!(engine.render(""), "");
    assert_eq!(engine.render("no tokens here"), "no tokens here");
    assert_eq!(engine.render("{name} {{name} {{ name }}"), "{name} {{name} {{ name }}");
}

#[test]
fn render_replaces_every_occurrence() {
    let mut engine = TemplateEngine::new();
    engine.set("n", "ab");
    assert_eq!(engine.render("{{n}}{{n}}-{{n}}"), "abab-ab");
}

#[test]
fn set_replaces_an_earlier_binding() {
    let mut engine = TemplateEngine::new();
    engine.set("k", "old");
    engine.set("k", "new");
    assert_eq!(engine.render("{{k}}"), "new");
}

#[test]
fn render_with_nested_braces() {
    let mut engine = TemplateEngine::new();
    engine.set("a", "b");
    engine.set("b", "X");
    assert_eq!(engine.render("{{{{a}}}}"), "{{b}}");
    assert_eq!(engine.render("${{ secrets.TOKEN }} {{a}}"), "${{ secrets.TOKEN }} b");
}

#[test]
fn render_picks_the_shortest_key() {
    let mut engine = TemplateEngine::new();
    engine.set("x}}y", "long");
    engine.set("x", "short");
    assert_eq!(engine.render("{{x}}y}}"), "shorty}}");

    let mut only_long = TemplateEngine::new();
    only_long.set("x}}y", "long");
    assert_eq!(only_long.render("{{x}}y}}"), "long");
}

#[test]
fn render_with_empty_key_and_value() {
    let mut engine = TemplateEngine::new();
    engine.set("", "E");
    engine.set("gone", "");
    assert_eq!(engine.render("a{{}}b{{gone}}c"), "aEbc");
}

#[test]
fn render_handles_text_beyond_ascii() {
    let mut engine = TemplateEngine::new();
    engine.set("name", "caf\u{e9}");
    assert_eq!(engine.render("\u{4f60}\u{597d} {{name}} \u{1f600}"), "\u{4f60}\u{597d} caf\u{e9} \u{1f600}");
}

#[test]
fn set_can_be_chained() {
    let mut engine = TemplateEngine::new();
    engine.set("a", "1").set("b", "2").set("a", "3");
    assert_eq!(engine.render("{{a}}{{b}}"), "32");
}
