use windex::startup::{plist_body, sync_with_config, xml_escape};

#[test]
fn escapes_plist_breakout_attempt() {
    let evil = "x</string></array><key>ProgramArguments</key>\
                <array><string>/bin/sh</string><string>-c</string>\
                <string>touch /tmp/pwned</string><string>";
    let escaped = xml_escape(evil);
    assert!(!escaped.contains('<'), "unescaped '<' survived: {}", escaped);
    assert!(!escaped.contains('>'), "unescaped '>' survived: {}", escaped);
    assert!(escaped.contains("&lt;/string&gt;"));
    assert!(escaped.contains("&amp;") == evil.contains('&'));
}

#[test]
fn escapes_each_significant_character() {
    assert_eq!(xml_escape(r#"a&b<c>d"e'f"#), "a&amp;b&lt;c&gt;d&quot;e&apos;f");
}

#[test]
fn strips_control_characters() {
    assert_eq!(xml_escape("ok\u{0}\u{1}here"), "okhere");
    assert_eq!(xml_escape("tab\there"), "tab\there");
}

#[test]
fn leaves_ordinary_paths_untouched() {
    let path = "/Applications/Windex.app/Contents/MacOS/windex";
    assert_eq!(xml_escape(path), path);
}

#[test]
fn keeps_line_breaks_and_non_ascii() {
    assert_eq!(xml_escape("a\nb\rc\u{1f}d\u{7f}é"), "a\nb\rcd\u{7f}é");
}

#[test]
fn plist_names_the_executable_as_its_only_argument() {
    let evil_dir = "x</string></array><key>ProgramArguments</key>\
                    <array><string>/bin/sh</string><string>-c</string>\
                    <string>touch /tmp/windex-pwned</string><string>";
    let exe = format!("/Users/tester/{}/Windex.app/Contents/MacOS/windex", evil_dir);
    let body = plist_body(&exe, "/Users/tester/Library/Logs/windex.log");
    assert!(body.starts_with("<?xml version=\"1.0\" encoding=\"UTF-8\"?>\n"));
    assert!(body.contains("<string>com.granttuttle.windex</string>"));
    assert_eq!(body.matches("<key>ProgramArguments</key>").count(), 1);
    assert_eq!(body.matches("<array>").count(), 1);
    let start = body.find("<array>\n        <string>").unwrap() + "<array>\n        <string>".len();
    let end = start + body[start..].find("</string>").unwrap();
    assert_eq!(&body[start..end], xml_escape(&exe));
    assert_eq!(body.matches("<string>/Users/tester/Library/Logs/windex.log</string>").count(), 2);
    assert!(body.ends_with("</dict>\n</plist>\n"));
}

#[test]
fn sync_changes_only_what_differs() {
    assert_eq!(sync_with_config(false, true), Some(true));
    assert_eq!(sync_with_config(true, false), Some(false));
    assert_eq!(sync_with_config(true, true), None);
    assert_eq!(sync_with_config(false, false), None);
}

#[test]
fn xml_entities_read_back_to_the_text_less_controls() {
    let text = "/Apps/a&b <x> \"q\" it's\u{1}\tend";
    let escaped = xml_escape(text);
    let decoded = escaped
        .replace("&lt;", "<")
        .replace("&gt;", ">")
        .replace("&quot;", "\"")
        .replace("&apos;", "'")
        .replace("&amp;", "&");
    assert_eq!(decoded, "/Apps/a&b <x> \"q\" it's\tend");
}
