use forgeflow::utils::template::{TEngine, TEngineError};

#[test]
fn template_it_works() {
    let engine = TEngine::new();
    let template = "Hello, {{name}}!";
    let data = "{\"name\":\"World\"}";
    let rendered = engine.render_template(template, data).unwrap();
    assert_eq!(rendered, "Hello, World!");
}

#[test]
fn rendering_is_verbatim_without_escaping() {
    let engine = TEngine::new();
    let rendered = engine
        .render_template("{{text}}", "{\"text\":\"a < b & c\"}")
        .unwrap();
    assert_eq!(rendered, "a < b & c");
}

#[test]
fn it_works_with_complex_data() {
    let engine = TEngine::new();
    let template = "my story, {{verbatim story}}!";
    let data = "{\"story\": [{\"year\": 1920, \"work\": \"novel\"}, {\"year\": 1930, \"work\": \"poem\"}, {\"year\": 1940, \"work\": \"short story\"}]}";
    let rendered = engine.render_template(template, data).unwrap();
    assert_eq!(
        rendered,
        "my story, [{\"work\":\"novel\",\"year\":1920},{\"work\":\"poem\",\"year\":1930},{\"work\":\"short story\",\"year\":1940}]!"
    );
}

#[test]
fn rendering_rejects_bad_data() {
    let engine = TEngine::new();
    assert!(engine.render_template("{{name}}", "not json").is_err());
}

#[test]
fn rendering_rejects_bad_template() {
    let engine = TEngine::new();
    assert!(engine
        .render_template("{{#if", "{\"name\":\"World\"}")
        .is_err());
}

#[test]
fn registration_validates_template_syntax() {
    let mut engine = TEngine::new();
    assert!(engine
        .register_template_string("prompt", "Hello, {{name}}!")
        .is_ok());
    match engine.register_template_string("broken", "{{#if") {
        Err(TEngineError::TemplateError(_)) => {}
        other => panic!("Expected a template parse error, got {:?}", other),
    }
}

#[test]
fn bad_data_reports_a_json_error() {
    let engine = TEngine::new();
    match engine.render_template("{{name}}", "not json") {
        Err(TEngineError::JsonError(_)) => {}
        other => panic!("Expected a data parse error, got {:?}", other),
    }
}

#[test]
fn empty_template_renders_empty() {
    let engine = TEngine::new();
    assert_eq!(engine.render_template("", "{}").unwrap(), "");
}

#[test]
fn partials_render_from_registrations() {
    // Rendering resolves partials from the engine's registered templates,
    // so what a render produces depends on the registrations too.
    let mut engine = TEngine::new();
    engine.register_template_string("p", "X").unwrap();
    assert_eq!(engine.render_template("{{> p}}", "{}").unwrap(), "X");

    let fresh = TEngine::new();
    assert!(fresh.render_template("{{> p}}", "{}").is_err());
}
