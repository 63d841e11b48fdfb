use rive_viewer::demo::{
    config_json, effective_canvas_color, finish_export, plan_export, render_demo_page,
    suggested_file_name, synthesize, DemoConfig,
};
use rive_viewer::error::ViewerError;
use rive_viewer::escape::{escape_script_text, js_escape_text};
use rive_viewer::json::{json_array, json_object, json_string};

fn sample() -> DemoConfig {
    DemoConfig {
        file_name: "cat.riv".to_string(),
        animation_base64: "AAEC".to_string(),
        runtime_name: "canvas".to_string(),
        runtime_version: Some("2.21.6".to_string()),
        runtime_script: "var rive = {};".to_string(),
        autoplay: true,
        layout_fit: "contain".to_string(),
        state_machines: vec!["State Machine 1".to_string()],
        artboard_name: None,
        canvas_color: None,
        canvas_transparent: false,
        layout_state: None,
        view_model_hierarchy: None,
    }
}

fn between<'a>(text: &'a str, start: &str, end: &str) -> &'a str {
    let from = text.find(start).expect("start marker") + start.len();
    let len = text[from..].find(end).expect("end marker");
    &text[from..from + len]
}

fn unescape_js(s: &str) -> String {
    let mut out = String::new();
    let mut it = s.chars();
    while let Some(c) = it.next() {
        if c == '\\' {
            if let Some(next) = it.next() {
                out.push(next);
            }
        } else {
            out.push(c);
        }
    }
    out
}

fn embedded_config(html: &str) -> serde_json::Value {
    let block = between(html, "window.__DEMO_CONFIG__ = JSON.parse('", "');");
    serde_json::from_str(&unescape_js(block)).unwrap()
}

#[test]
fn runtime_script_close_tag_is_escaped() {
    assert_eq!(escape_script_text("a</script>b</script"), "a<\\/script>b<\\/script");
    assert_eq!(escape_script_text("</scrip"), "</scrip");
    assert_eq!(escape_script_text("<</script"), "<<\\/script");
    let mut cfg = sample();
    cfg.runtime_script = "x = '</script><script>alert(1)</script>';".to_string();
    let html = synthesize(&cfg);
    let segment = between(&html, "');\n  </script>\n  <script>", "</script>\n  <script>\n    (function");
    assert_eq!(segment, "x = '<\\/script><script>alert(1)<\\/script>';");
    assert!(!segment.contains("</script"));
}

#[test]
fn embedded_config_defaults_canvas_color() {
    let html = synthesize(&sample());
    let config = embedded_config(&html);
    assert_eq!(config["canvasColor"], "#0d1117");
    assert_eq!(config["runtimeName"], "canvas");
    assert_eq!(config["autoplay"], true);
    assert_eq!(config["artboardName"], serde_json::Value::Null);
    assert_eq!(config["stateMachines"][0], "State Machine 1");
    assert!(config["layoutState"].as_object().unwrap().is_empty());
}

#[test]
fn embedded_config_keeps_given_canvas_color() {
    let mut cfg = sample();
    cfg.canvas_color = Some("#ff00aa".to_string());
    cfg.artboard_name = Some("Main 'art'\\board".to_string());
    cfg.layout_state = Some("{\"fit\": \"cover\",\n \"zoom\": 2}".to_string());
    cfg.runtime_version = None;
    let html = synthesize(&cfg);
    let config = embedded_config(&html);
    assert_eq!(config["canvasColor"], "#ff00aa");
    assert_eq!(config["artboardName"], "Main 'art'\\board");
    assert_eq!(config["layoutState"]["fit"], "cover");
    assert!(config_json(&cfg).contains("\"layoutState\":{\"fit\":\"cover\",\"zoom\":2},"));
    assert_eq!(config["runtimeVersion"], serde_json::Value::Null);
    assert!(html.contains("value=\"#ff00aa\""));
    assert_eq!(effective_canvas_color(&cfg), "#ff00aa");
    assert_eq!(effective_canvas_color(&sample()), "#0d1117");
}

#[test]
fn config_json_has_exact_text() {
    let cfg = sample();
    assert_eq!(
        config_json(&cfg),
        "{\"animationBase64\":\"AAEC\",\"artboardName\":null,\"autoplay\":true,\
         \"canvasColor\":\"#0d1117\",\"canvasTransparent\":false,\"layoutFit\":\"contain\",\
         \"layoutState\":{},\"runtimeName\":\"canvas\",\"runtimeVersion\":\"2.21.6\",\
         \"stateMachines\":[\"State Machine 1\"]}"
    );
}

#[test]
fn unparsable_layout_state_becomes_empty_object() {
    let mut cfg = sample();
    cfg.layout_state = Some("{not json".to_string());
    let text = config_json(&cfg);
    assert!(text.contains("\"layoutState\":{},"));
}

#[test]
fn page_substitutes_labels_and_names() {
    let html = render_demo_page(&sample(), "{}");
    assert!(html.starts_with("<!DOCTYPE html>"));
    assert!(html.contains("<title>cat.riv \u{2013} Rive Demo</title>"));
    assert!(html.contains("<span id=\"file-name\">cat.riv</span> &middot; Canvas runtime 2.21.6</footer>"));
    assert!(html.contains("window.__DEMO_VIEW_MODELS__ = JSON.parse('null');"));
    let mut cfg = sample();
    cfg.runtime_name = "webgl2".to_string();
    cfg.runtime_version = None;
    cfg.view_model_hierarchy = Some("{\"name\":\"It's <b>\"}".to_string());
    let html = render_demo_page(&cfg, "{}");
    assert!(html.contains("&middot; WebGL runtime unknown</footer>"));
    assert!(html.contains("JSON.parse('{\"name\":\"It\\'s <b>\"}');"));
    assert!(html.ends_with("</html>\n"));
}

#[test]
fn js_escape_of_specials() {
    assert_eq!(js_escape_text("a\\b'c\nd\re<f"), "a\\\\b\\'c\nd\re<f");
    assert_eq!(js_escape_text("plain"), "plain");
}

#[test]
fn suggested_name_is_sanitized() {
    assert_eq!(suggested_file_name("my cat.riv"), "my-cat-riv-demo.html");
    assert_eq!(suggested_file_name(""), "-demo.html");
    assert_eq!(suggested_file_name("Caf\u{e9}_9"), "Caf--9-demo.html");
}

#[test]
fn export_without_destination_is_canceled() {
    match plan_export(&sample(), None) {
        Err(e) => {
            assert_eq!(e, ViewerError::Canceled);
            assert_eq!(e.message(), "Save canceled");
        }
        Ok(_) => panic!("an export without a destination must not produce a page"),
    }
}

#[test]
fn export_with_destination_plans_the_page() {
    let cfg = sample();
    let plan = plan_export(&cfg, Some("/tmp/cat-riv-demo.html".to_string())).unwrap();
    assert_eq!(plan.path, "/tmp/cat-riv-demo.html");
    assert_eq!(plan.html, synthesize(&cfg));
}

#[test]
fn finish_export_reports_write_outcome() {
    assert_eq!(finish_export("/tmp/a.html".to_string(), Ok(())), Ok("/tmp/a.html".to_string()));
    assert_eq!(
        finish_export("/tmp/a.html".to_string(), Err("denied".to_string())),
        Err(ViewerError::Io { path: "/tmp/a.html".to_string(), message: "denied".to_string() })
    );
}

#[test]
fn json_pieces_have_exact_text() {
    assert_eq!(json_string("a\"b\\c\n"), "\"a\\\"b\\\\c\\n\"");
    assert_eq!(json_string("\u{1}\t\u{8}\u{c}\r/\u{e9}"), "\"\\u0001\\t\\b\\f\\r/\u{e9}\"");
    assert_eq!(json_array(&vec![]), "[]");
    assert_eq!(json_array(&vec!["1".to_string(), "\"x\"".to_string()]), "[1,\"x\"]");
    assert_eq!(
        json_object(&vec![("a".to_string(), "1".to_string()), ("b".to_string(), "null".to_string())]),
        "{\"a\":1,\"b\":null}"
    );
    assert_eq!(json_object(&vec![]), "{}");
}
