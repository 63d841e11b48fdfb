//! The exported demo page: a self-contained HTML document that replays one
//! animation with the runtime's script, the animation and its settings inlined.

use vstd::prelude::*;
use crate::error::ViewerError;
use crate::escape::{
    close_tag,
    escape_script,
    escape_script_text,
    js_escape,
    js_escape_text,
    js_unescape,
    lemma_js_escape_reads_back,
    lemma_escaped_script_has_no_close_tag,
    occurs_in,
};
use crate::json::{
    array_text,
    compact_json,
    json_array,
    json_object,
    json_string,
    json_escape,
    json_string_literal,
    json_unescape,
    join_commas,
    lemma_string_literal_reads_back,
    member_text,
    members_view,
    reserialize_json,
};
use crate::template::{
    CONFIG_OPEN,
    FOOTER_RUNTIME,
    FOOTER_VERSION,
    PAGE_BODY,
    PAGE_HEAD,
    PAGE_PLAYER,
    PAGE_STYLE,
    RUNTIME_OPEN,
    TITLE_SUFFIX,
    VIEW_MODELS_OPEN,
};
use crate::text::{chars_of, same_text};

verus! {

/// What the user interface asks to export.
#[derive(Debug, Clone)]
pub struct DemoConfig {
    /// Name of the animation file, for display.
    pub file_name: String,
    /// The animation file's bytes, base64-encoded.
    pub animation_base64: String,
    /// `"canvas"` for the canvas runtime; anything else means WebGL.
    pub runtime_name: String,
    pub runtime_version: Option<String>,
    /// Source text of the runtime's script.
    pub runtime_script: String,
    pub autoplay: bool,
    pub layout_fit: String,
    pub state_machines: Vec<String>,
    pub artboard_name: Option<String>,
    /// A CSS hex colour; `#0d1117` when absent.
    pub canvas_color: Option<String>,
    pub canvas_transparent: bool,
    /// Layout state as JSON text.
    pub layout_state: Option<String>,
    /// View-model hierarchy as JSON text.
    pub view_model_hierarchy: Option<String>,
}

/// The canvas colour used when none is configured.
pub const DEFAULT_CANVAS_COLOR: &'static str = "#0d1117";

pub open spec fn canvas_color(cfg: DemoConfig) -> Seq<char> {
    match cfg.canvas_color {
        Some(c) => c@,
        None => DEFAULT_CANVAS_COLOR@,
    }
}

pub open spec fn bool_text(b: bool) -> Seq<char> {
    if b {
        "true"@
    } else {
        "false"@
    }
}

pub open spec fn optional_literal(o: Option<String>) -> Seq<char> {
    match o {
        Some(s) => json_string_literal(s@),
        None => "null"@,
    }
}

/// The configured layout state, parsed and written again, when it is a
/// JSON document; else `{}`.
pub open spec fn layout_state_text(o: Option<String>) -> Seq<char> {
    match o {
        Some(s) => match compact_json(s@) {
            Some(t) => t,
            None => "{}"@,
        },
        None => "{}"@,
    }
}

pub open spec fn state_machines_text(cfg: DemoConfig) -> Seq<char> {
    array_text(cfg.state_machines@.map_values(|s: String| json_string_literal(s@)))
}

/// The members of the configuration object, keys in sorted order.
pub open spec fn config_members(cfg: DemoConfig) -> Seq<Seq<char>> {
    seq![
        member_text("animationBase64"@, json_string_literal(cfg.animation_base64@)),
        member_text("artboardName"@, optional_literal(cfg.artboard_name)),
        member_text("autoplay"@, bool_text(cfg.autoplay)),
        member_text("canvasColor"@, json_string_literal(canvas_color(cfg))),
        member_text("canvasTransparent"@, bool_text(cfg.canvas_transparent)),
        member_text("layoutFit"@, json_string_literal(cfg.layout_fit@)),
        member_text("layoutState"@, layout_state_text(cfg.layout_state)),
        member_text("runtimeName"@, json_string_literal(cfg.runtime_name@)),
        member_text("runtimeVersion"@, optional_literal(cfg.runtime_version)),
        member_text("stateMachines"@, state_machines_text(cfg)),
    ]
}

/// The configuration object's JSON text.
pub open spec fn config_text(cfg: DemoConfig) -> Seq<char> {
    seq!['{'] + join_commas(config_members(cfg)) + seq!['}']
}

pub open spec fn page_title(cfg: DemoConfig) -> Seq<char> {
    cfg.file_name@ + TITLE_SUFFIX@
}

pub open spec fn runtime_label(cfg: DemoConfig) -> Seq<char> {
    if cfg.runtime_name@ == "canvas"@ {
        "Canvas"@
    } else {
        "WebGL"@
    }
}

pub open spec fn runtime_version_text(cfg: DemoConfig) -> Seq<char> {
    match cfg.runtime_version {
        Some(v) => v@,
        None => "unknown"@,
    }
}

pub open spec fn view_models_text(cfg: DemoConfig) -> Seq<char> {
    match cfg.view_model_hierarchy {
        Some(h) => js_escape(h@),
        None => "null"@,
    }
}

/// The page up to the runtime's script.
pub open spec fn page_before_script(cfg: DemoConfig, config: Seq<char>) -> Seq<char> {
    PAGE_HEAD@ + page_title(cfg) + PAGE_STYLE@ + canvas_color(cfg) + PAGE_BODY@ + cfg.file_name@
        + FOOTER_RUNTIME@ + runtime_label(cfg) + FOOTER_VERSION@ + runtime_version_text(cfg)
        + CONFIG_OPEN@ + js_escape(config) + VIEW_MODELS_OPEN@ + view_models_text(cfg)
        + RUNTIME_OPEN@
}

/// The demo page for `cfg`, with `config` as the configuration's JSON text.
pub open spec fn page_text(cfg: DemoConfig, config: Seq<char>) -> Seq<char> {
    page_before_script(cfg, config) + escape_script(cfg.runtime_script@) + PAGE_PLAYER@
}

/// The canvas colour: the configured one, else `#0d1117`.
pub fn effective_canvas_color(cfg: &DemoConfig) -> (r: String)
    ensures
        r@ == canvas_color(*cfg),
{
    match &cfg.canvas_color {
        Some(c) => c.clone(),
        None => String::from_str(DEFAULT_CANVAS_COLOR),
    }
}

fn bool_json(b: bool) -> (r: String)
    ensures
        r@ == bool_text(b),
{
    if b {
        String::from_str("true")
    } else {
        String::from_str("false")
    }
}

fn optional_json(o: &Option<String>) -> (r: String)
    ensures
        r@ == optional_literal(*o),
{
    match o {
        Some(s) => json_string(s.as_str()),
        None => String::from_str("null"),
    }
}

fn layout_state_json(o: &Option<String>) -> (r: String)
    ensures
        r@ == layout_state_text(*o),
{
    match o {
        Some(s) => match reserialize_json(s.as_str()) {
            Some(t) => t,
            None => String::from_str("{}"),
        },
        None => String::from_str("{}"),
    }
}

fn state_machines_json(names: &Vec<String>) -> (r: String)
    ensures
        r@ == array_text(names@.map_values(|s: String| json_string_literal(s@))),
{
    let ghost want = names@.map_values(|s: String| json_string_literal(s@));
    let mut items: Vec<String> = Vec::new();
    let mut i: usize = 0;
    while i < names.len()
        invariant
            i <= names@.len(),
            want == names@.map_values(|s: String| json_string_literal(s@)),
            items@.map_values(|s: String| s@) == want.take(i as int),
        decreases names@.len() - i,
    {
        let item = json_string(names[i].as_str());
        let ghost before = items@;
        items.push(item);
        assert(items@.map_values(|s: String| s@) =~= before.map_values(|s: String| s@).push(
            want[i as int],
        ));
        assert(want.take(i + 1) =~= want.take(i as int).push(want[i as int]));
        i = i + 1;
    }
    assert(want.take(i as int) =~= want);
    json_array(&items)
}

fn member(key: &str, value: String) -> (r: (String, String))
    ensures
        r.0@ == key@,
        r.1 == value,
{
    (String::from_str(key), value)
}

/// The configuration object's JSON text, its strings written by `serde_json`.
pub fn config_json(cfg: &DemoConfig) -> (r: String)
    ensures
        r@ == config_text(*cfg),
{
    let color = effective_canvas_color(cfg);
    let mut members: Vec<(String, String)> = Vec::new();
    members.push(member("animationBase64", json_string(cfg.animation_base64.as_str())));
    members.push(member("artboardName", optional_json(&cfg.artboard_name)));
    members.push(member("autoplay", bool_json(cfg.autoplay)));
    members.push(member("canvasColor", json_string(color.as_str())));
    members.push(member("canvasTransparent", bool_json(cfg.canvas_transparent)));
    members.push(member("layoutFit", json_string(cfg.layout_fit.as_str())));
    members.push(member("layoutState", layout_state_json(&cfg.layout_state)));
    members.push(member("runtimeName", json_string(cfg.runtime_name.as_str())));
    members.push(member("runtimeVersion", optional_json(&cfg.runtime_version)));
    members.push(member("stateMachines", state_machines_json(&cfg.state_machines)));
    assert(members_view(members@) =~= config_members(*cfg));
    json_object(&members)
}

/// The demo page for `cfg`, with `config` as the configuration's JSON text.
pub fn render_demo_page(cfg: &DemoConfig, config: &str) -> (r: String)
    ensures
        r@ == page_text(*cfg, config@),
{
    let mut out = String::from_str(PAGE_HEAD);
    out.append(cfg.file_name.as_str());
    out.append(TITLE_SUFFIX);
    out.append(PAGE_STYLE);
    let color = effective_canvas_color(cfg);
    out.append(color.as_str());
    out.append(PAGE_BODY);
    out.append(cfg.file_name.as_str());
    out.append(FOOTER_RUNTIME);
    if same_text(cfg.runtime_name.as_str(), "canvas") {
        out.append("Canvas");
    } else {
        out.append("WebGL");
    }
    out.append(FOOTER_VERSION);
    match &cfg.runtime_version {
        Some(v) => out.append(v.as_str()),
        None => out.append("unknown"),
    }
    out.append(CONFIG_OPEN);
    let escaped_config = js_escape_text(config);
    out.append(escaped_config.as_str());
    out.append(VIEW_MODELS_OPEN);
    match &cfg.view_model_hierarchy {
        Some(h) => {
            let escaped = js_escape_text(h.as_str());
            out.append(escaped.as_str());
        },
        None => out.append("null"),
    }
    out.append(RUNTIME_OPEN);
    let script = escape_script_text(cfg.runtime_script.as_str());
    out.append(script.as_str());
    out.append(PAGE_PLAYER);
    assert(out@ =~= page_text(*cfg, config@));
    out
}

/// The demo page for `cfg`.
pub fn synthesize(cfg: &DemoConfig) -> (r: String)
    ensures
        r@ == page_text(*cfg, config_text(*cfg)),
{
    let config = config_json(cfg);
    render_demo_page(cfg, config.as_str())
}

pub open spec fn is_ascii_alphanumeric(c: char) -> bool {
    ('a' <= c && c <= 'z') || ('A' <= c && c <= 'Z') || ('0' <= c && c <= '9')
}

pub open spec fn file_name_char(c: char) -> char {
    if is_ascii_alphanumeric(c) {
        c
    } else {
        '-'
    }
}

/// The name offered for the exported page: the animation's name with every
/// character but ASCII letters and digits turned into `-`, then `-demo.html`.
pub open spec fn suggested_name(file_name: Seq<char>) -> Seq<char> {
    file_name.map_values(|c: char| file_name_char(c)) + "-demo.html"@
}

/// The name offered for the exported page of the animation `file_name`.
pub fn suggested_file_name(file_name: &str) -> (r: String)
    ensures
        r@ == suggested_name(file_name@),
{
    let cs = chars_of(file_name);
    let mut out = String::new();
    let mut i: usize = 0;
    while i < cs.len()
        invariant
            i <= cs@.len(),
            cs@ == file_name@,
            out@ == file_name@.take(i as int).map_values(|c: char| file_name_char(c)),
        decreases cs@.len() - i,
    {
        let c = cs[i];
        if ('a' <= c && c <= 'z') || ('A' <= c && c <= 'Z') || ('0' <= c && c <= '9') {
            out.push(c);
        } else {
            out.push('-');
        }
        i = i + 1;
        assert(out@ =~= file_name@.take(i as int).map_values(|c: char| file_name_char(c)));
    }
    assert(file_name@.take(i as int) =~= file_name@);
    out.append("-demo.html");
    out
}

/// A page ready to be written to the chosen destination.
pub struct ExportPlan {
    pub path: String,
    pub html: String,
}

/// What to write, once the user has chosen a destination or declined to:
/// no destination cancels the export.
pub fn plan_export(cfg: &DemoConfig, destination: Option<String>) -> (r: Result<
    ExportPlan,
    ViewerError,
>)
    ensures
        destination is None ==> r == Err::<ExportPlan, ViewerError>(ViewerError::Canceled),
        destination is Some ==> r is Ok && r->Ok_0.path == destination->Some_0 && r->Ok_0.html@
            == page_text(*cfg, config_text(*cfg)),
{
    match destination {
        None => Err(ViewerError::Canceled),
        Some(path) => Ok(ExportPlan { path, html: synthesize(cfg) }),
    }
}

/// The outcome of an export, given what writing the page to `path` returned.
pub fn finish_export(path: String, written: Result<(), String>) -> (r: Result<String, ViewerError>)
    ensures
        written is Ok ==> r == Ok::<String, ViewerError>(path),
        written is Err ==> r == Err::<String, ViewerError>(
            ViewerError::Io { path, message: written->Err_0 },
        ),
{
    match written {
        Ok(()) => Ok(path),
        Err(message) => Err(ViewerError::Io { path, message }),
    }
}

/// The runtime's script reaches a demo page only through its own slot,
/// escaped: the page around the slot does not depend on the script, and
/// the slot holds no `</script`.
pub proof fn lemma_script_only_in_its_slot(cfg: DemoConfig, other: DemoConfig, config: Seq<char>)
    requires
        other == (DemoConfig { runtime_script: other.runtime_script, ..cfg }),
    ensures
        page_text(cfg, config) == page_before_script(cfg, config) + escape_script(
            cfg.runtime_script@,
        ) + PAGE_PLAYER@,
        page_text(other, config) == page_before_script(cfg, config) + escape_script(
            other.runtime_script@,
        ) + PAGE_PLAYER@,
        !occurs_in(escape_script(cfg.runtime_script@), close_tag()),
{
    lemma_escaped_script_has_no_close_tag(cfg.runtime_script@);
}

proof fn lemma_occurs_in_middle(a: Seq<char>, b: Seq<char>, c: Seq<char>, p: Seq<char>, i: int)
    requires
        0 <= i && i + p.len() <= b.len() && b.subrange(i, i + p.len()) == p,
    ensures
        occurs_in(a + b + c, p),
{
    let j = a.len() + i;
    assert((a + b + c).subrange(j, j + p.len()) =~= b.subrange(i, i + p.len()));
}

/// Each text joined stands in the joined text.
proof fn lemma_join_holds_item(items: Seq<Seq<char>>, k: int)
    requires
        0 <= k < items.len(),
    ensures
        occurs_in(join_commas(items), items[k]),
    decreases items.len(),
{
    let j = join_commas(items);
    if items.len() == 1 {
        assert(items[0].subrange(0, items[0].len() as int) =~= items[0]);
        lemma_occurs_in_middle(Seq::empty(), items[0], Seq::empty(), items[0], 0);
        assert(Seq::<char>::empty() + items[0] + Seq::<char>::empty() =~= j);
    } else if k == items.len() - 1 {
        let pre = join_commas(items.drop_last()) + seq![','];
        assert(items[k].subrange(0, items[k].len() as int) =~= items[k]);
        lemma_occurs_in_middle(pre, items[k], Seq::empty(), items[k], 0);
        assert(pre + items[k] + Seq::<char>::empty() =~= j);
    } else {
        lemma_join_holds_item(items.drop_last(), k);
        let head = join_commas(items.drop_last());
        let i = choose|i: int|
            0 <= i && i + items[k].len() <= head.len() && #[trigger] head.subrange(
                i,
                i + items[k].len(),
            ) == items[k];
        lemma_occurs_in_middle(Seq::empty(), head, seq![','] + items.last(), items[k], i);
        assert(Seq::<char>::empty() + head + (seq![','] + items.last()) =~= j);
    }
}

/// The configuration inlined into a demo page carries the canvas colour:
/// the page holds the configuration's text escaped, which reads back to
/// that text; in it the member `"canvasColor"` holds the JSON string
/// literal of the configured colour, or of `#0d1117` when none is
/// configured; and that literal reads back to the colour.
pub proof fn lemma_config_carries_canvas_color(cfg: DemoConfig)
    ensures
        occurs_in(page_text(cfg, config_text(cfg)), js_escape(config_text(cfg))),
        js_unescape(js_escape(config_text(cfg))) == config_text(cfg),
        occurs_in(
            config_text(cfg),
            member_text("canvasColor"@, json_string_literal(canvas_color(cfg))),
        ),
        json_string_literal(canvas_color(cfg)) == seq!['"'] + json_escape(canvas_color(cfg))
            + seq!['"'],
        json_unescape(json_escape(canvas_color(cfg))) == canvas_color(cfg),
        cfg.canvas_color is Some ==> canvas_color(cfg) == cfg.canvas_color->Some_0@,
        cfg.canvas_color is None ==> canvas_color(cfg) == DEFAULT_CANVAS_COLOR@,
{
    lemma_js_escape_reads_back(config_text(cfg));
    lemma_string_literal_reads_back(canvas_color(cfg));
    let members = config_members(cfg);
    lemma_join_holds_item(members, 3);
    let j = join_commas(members);
    let m = members[3];
    let i = choose|i: int|
        0 <= i && i + m.len() <= j.len() && #[trigger] j.subrange(i, i + m.len()) == m;
    lemma_occurs_in_middle(seq!['{'], j, seq!['}'], m, i);
    let c = config_text(cfg);
    let e = js_escape(c);
    let before = PAGE_HEAD@ + page_title(cfg) + PAGE_STYLE@ + canvas_color(cfg) + PAGE_BODY@
        + cfg.file_name@ + FOOTER_RUNTIME@ + runtime_label(cfg) + FOOTER_VERSION@
        + runtime_version_text(cfg) + CONFIG_OPEN@;
    let after = VIEW_MODELS_OPEN@ + view_models_text(cfg) + RUNTIME_OPEN@ + escape_script(
        cfg.runtime_script@,
    ) + PAGE_PLAYER@;
    assert(e.subrange(0, e.len() as int) =~= e);
    lemma_occurs_in_middle(before, e, after, e, 0);
    assert(before + e + after =~= page_text(cfg, c));
}

} // verus!
