use windex::config::settings::HotkeyConfig;
use windex::menu::shortcuts::{html_escape, key_caps, render, rows};

const VERSION: &str = "0.1.0";
const CONFIG_PATH: &str = "/Users/tester/Library/Application Support/windex/config.toml";

#[test]
fn renders_key_caps_as_symbols() {
    assert_eq!(
        key_caps("ctrl+alt+left"),
        "<kbd>⌃</kbd> <kbd>⌥</kbd> <kbd>←</kbd>"
    );
    assert_eq!(key_caps("ctrl+alt+d"), "<kbd>⌃</kbd> <kbd>⌥</kbd> <kbd>D</kbd>");
}

#[test]
fn escapes_markup_from_config() {
    let mut hotkeys = HotkeyConfig::default();
    hotkeys.maximize = Some("ctrl+alt+<img src=x onerror=alert(1)>".to_string());
    let html = render(&hotkeys, VERSION, CONFIG_PATH);
    assert!(
        !html.to_lowercase().contains("<img"),
        "config markup reached the page unescaped"
    );
    assert!(html.contains("&lt;IMG SRC=X ONERROR=ALERT(1)&gt;"));
}

#[test]
fn escapes_ampersands_and_quotes() {
    assert_eq!(html_escape(r#"a&b<c>"d""#), "a&amp;b&lt;c&gt;&quot;d&quot;");
}

#[test]
fn omits_unbound_actions() {
    let mut hotkeys = HotkeyConfig::default();
    hotkeys.center = None;
    let html = render(&hotkeys, VERSION, CONFIG_PATH);
    assert!(html.contains("Maximize"));
    assert!(!html.contains(">Center<"));
}

#[test]
fn escapes_apostrophes_as_numeric_entity() {
    assert_eq!(html_escape("it's"), "it&#39;s");
    assert_eq!(html_escape("plain text"), "plain text");
    assert_eq!(html_escape(""), "");
}

#[test]
fn key_caps_trim_and_fold_case() {
    assert_eq!(
        key_caps(" Shift + CMD +space"),
        "<kbd>⇧</kbd> <kbd>⌘</kbd> <kbd>Space</kbd>"
    );
    assert_eq!(key_caps("option+return"), "<kbd>⌥</kbd> <kbd>⏎</kbd>");
    assert_eq!(key_caps("up"), "<kbd>↑</kbd>");
    assert_eq!(key_caps("down+f5"), "<kbd>↓</kbd> <kbd>F5</kbd>");
    assert_eq!(key_caps(""), "<kbd></kbd>");
    assert_eq!(key_caps("a+"), "<kbd>A</kbd> <kbd></kbd>");
}

#[test]
fn key_caps_escape_markup() {
    assert_eq!(key_caps("ctrl+<b>"), "<kbd>⌃</kbd> <kbd>&lt;B&gt;</kbd>");
}

#[test]
fn rows_follow_the_action_order() {
    let hotkeys = HotkeyConfig::default();
    let r = rows(&hotkeys);
    assert_eq!(r.len(), 17);
    assert_eq!(r[0].0, "Halves");
    assert_eq!(r[0].1, "Left half");
    assert_eq!(r[0].2.as_deref(), Some("ctrl+alt+left"));
    assert_eq!(r[7].1, "Left two-thirds");
    assert_eq!(r[12].0, "Corners");
    assert_eq!(r[12].1, "Bottom right");
    assert_eq!(r[16].0, "Displays");
    assert_eq!(r[16].1, "Previous monitor");
}

#[test]
fn render_groups_rows_under_one_heading_each() {
    let hotkeys = HotkeyConfig::default();
    let html = render(&hotkeys, VERSION, CONFIG_PATH);
    assert!(html.starts_with("<!doctype html>\n"));
    assert!(html.ends_with("</html>\n"));
    assert!(html.contains("<h1>Windex 0.1.0</h1>"));
    assert_eq!(html.matches("<tr class=\"group\">").count(), 5);
    assert_eq!(html.matches("<tr><td>").count(), 17);
    assert!(html.contains(
        "<tr class=\"group\"><th colspan=\"2\">Halves</th></tr><tr><td>Left half</td><td class=\"keys\"><kbd>⌃</kbd> <kbd>⌥</kbd> <kbd>←</kbd></td></tr>"
    ));
    assert!(html.contains("<footer>Config file: <code>/Users/tester/Library/Application Support/windex/config.toml</code></footer>"));
}

#[test]
fn render_escapes_the_config_path() {
    let hotkeys = HotkeyConfig::default();
    let html = render(&hotkeys, VERSION, "/tmp/a<b>&\"c\"");
    assert!(html.contains("<code>/tmp/a&lt;b&gt;&amp;&quot;c&quot;</code>"));
}

#[test]
fn render_skips_heading_of_an_empty_group() {
    let mut hotkeys = HotkeyConfig::default();
    hotkeys.maximize = None;
    hotkeys.center = None;
    let html = render(&hotkeys, VERSION, CONFIG_PATH);
    assert!(!html.contains(">Window<"));
    assert_eq!(html.matches("<tr class=\"group\">").count(), 4);
    assert_eq!(html.matches("<tr><td>").count(), 15);
}

#[test]
fn html_entities_read_back_to_the_text() {
    let text = "a&amp;b <i>\"x\"</i> it's & done";
    let escaped = html_escape(text);
    let decoded = escaped
        .replace("&lt;", "<")
        .replace("&gt;", ">")
        .replace("&quot;", "\"")
        .replace("&#39;", "'")
        .replace("&amp;", "&");
    assert_eq!(decoded, text);
}
