//! Launch-at-login support: the LaunchAgent document and the decision of
//! what to change so the login item matches the configured preference.

use vstd::prelude::*;
use crate::text::{has_at, push_char};

verus! {

/// What one character becomes inside an XML element: the five markup
/// characters turn into entities, control characters other than tab, line
/// feed and carriage return are dropped (XML 1.0 forbids them even escaped),
/// and everything else is kept.
pub open spec fn xml_escape_char(c: char) -> Seq<char> {
    if c == '&' {
        seq!['&', 'a', 'm', 'p', ';']
    } else if c == '<' {
        seq!['&', 'l', 't', ';']
    } else if c == '>' {
        seq!['&', 'g', 't', ';']
    } else if c == '"' {
        seq!['&', 'q', 'u', 'o', 't', ';']
    } else if c == '\'' {
        seq!['&', 'a', 'p', 'o', 's', ';']
    } else if (c as u32) < 0x20 && c != '\t' && c != '\n' && c != '\r' {
        Seq::<char>::empty()
    } else {
        seq![c]
    }
}

/// `s` with every character replaced by its XML form.
pub open spec fn xml_escaped(s: Seq<char>) -> Seq<char>
    decreases s.len(),
{
    if s.len() == 0 {
        Seq::<char>::empty()
    } else {
        xml_escaped(s.drop_last()) + xml_escape_char(s.last())
    }
}

/// Escape text for inclusion in an XML element.
pub fn xml_escape(s: &str) -> (out: String)
    ensures
        out@ == xml_escaped(s@),
{
    let n = s.unicode_len();
    let mut out = String::new();
    let mut i: usize = 0;
    while i < n
        invariant
            n == s@.len(),
            i <= n,
            out@ == xml_escaped(s@.take(i as int)),
        decreases n - i,
    {
        let c = s.get_char(i);
        proof {
            assert(s@.take(i + 1).drop_last() =~= s@.take(i as int));
            assert(s@.take(i + 1).last() == c);
        }
        let ghost before = out@;
        if c == '&' {
            out.append("&amp;");
            proof { reveal_strlit("&amp;"); }
        } else if c == '<' {
            out.append("&lt;");
            proof { reveal_strlit("&lt;"); }
        } else if c == '>' {
            out.append("&gt;");
            proof { reveal_strlit("&gt;"); }
        } else if c == '"' {
            out.append("&quot;");
            proof { reveal_strlit("&quot;"); }
        } else if c == '\'' {
            out.append("&apos;");
            proof { reveal_strlit("&apos;"); }
        } else if (c as u32) < 0x20 && c != '\t' && c != '\n' && c != '\r' {
        } else {
            push_char(&mut out, c);
        }
        assert(out@ =~= before + xml_escape_char(c));
        i = i + 1;
    }
    assert(s@.take(n as int) =~= s@);
    out
}


/// The LaunchAgent's label.
pub const LABEL: &'static str = "com.granttuttle.windex";

/// The plist up to the label.
pub const PLIST_HEAD: &'static str = r#"<?xml version="1.0" encoding="UTF-8"?>
<!DOCTYPE plist PUBLIC "-//Apple//DTD PLIST 1.0//EN" "http://www.apple.com/DTDs/PropertyList-1.0.dtd">
<plist version="1.0">
<dict>
    <key>Label</key>
    <string>"#;

/// Between the label and the executable path.
pub const PLIST_BEFORE_EXE: &'static str = "</string>\n    <key>ProgramArguments</key>\n    <array>\n        <string>";

/// Between the executable path and the standard output log path.
pub const PLIST_BEFORE_STDOUT: &'static str = "</string>\n    </array>\n    <key>RunAtLoad</key>\n    <true/>\n    <key>KeepAlive</key>\n    <false/>\n    <key>ProcessType</key>\n    <string>Interactive</string>\n    <key>StandardOutPath</key>\n    <string>";

/// Between the two log paths.
pub const PLIST_BEFORE_STDERR: &'static str = r#"</string>
    <key>StandardErrorPath</key>
    <string>"#;

/// After the standard error log path.
pub const PLIST_END: &'static str = r#"</string>
</dict>
</plist>
"#;

/// The LaunchAgent plist for executable `exe` logging to `log`: the
/// executable is the only program argument, and both paths are XML-escaped.
pub open spec fn plist_of(exe: Seq<char>, log: Seq<char>) -> Seq<char> {
    PLIST_HEAD@ + LABEL@ + PLIST_BEFORE_EXE@ + xml_escaped(exe) + PLIST_BEFORE_STDOUT@
        + xml_escaped(log) + PLIST_BEFORE_STDERR@ + xml_escaped(log) + PLIST_END@
}

/// Render the LaunchAgent plist for a given executable and log path.
pub fn plist_body(exe: &str, log: &str) -> (r: String)
    ensures
        r@ == plist_of(exe@, log@),
{
    let exe_escaped = xml_escape(exe);
    let log_escaped = xml_escape(log);
    let mut r = String::new();
    r.append(PLIST_HEAD);
    r.append(LABEL);
    r.append(PLIST_BEFORE_EXE);
    r.append(exe_escaped.as_str());
    r.append(PLIST_BEFORE_STDOUT);
    r.append(log_escaped.as_str());
    r.append(PLIST_BEFORE_STDERR);
    r.append(log_escaped.as_str());
    r.append(PLIST_END);
    r
}

/// What bringing the login item in line with the configured preference
/// asks for, given whether it is `enabled` now: nothing when it already
/// matches `desired`, otherwise setting it to `desired`.
pub open spec fn sync_change(enabled: bool, desired: bool) -> Option<bool> {
    if enabled == desired {
        None
    } else {
        Some(desired)
    }
}

/// The change that brings the login item (now `enabled`) in line with the
/// configured preference `desired`, if any.
pub fn sync_with_config(enabled: bool, desired: bool) -> (change: Option<bool>)
    ensures
        change == sync_change(enabled, desired),
{
    if enabled == desired {
        return None;
    }
    Some(desired)
}

/// After the change `sync_with_config` asks for is made, the login item
/// matches the preference, and syncing again asks for nothing.
pub proof fn lemma_sync_reaches_preference(enabled: bool, desired: bool)
    ensures
        ({
            let after = match sync_change(enabled, desired) {
                Some(v) => v,
                None => enabled,
            };
            after == desired && sync_change(after, desired) is None
        }),
{
}

/// A character that may not appear raw inside an XML element's text.
pub open spec fn xml_special(c: char) -> bool {
    c == '&' || c == '<' || c == '>' || c == '"' || c == '\'' || ((c as u32) < 0x20 && c != '\t'
        && c != '\n' && c != '\r')
}

/// Escaped text holds no `<`, `>`, quote or apostrophe, and no control
/// character other than tab, line feed and carriage return, so it cannot
/// close the element it is placed in or open another.
pub proof fn lemma_xml_escaped_is_inert(s: Seq<char>)
    ensures
        forall|i: int|
            0 <= i < xml_escaped(s).len() ==> {
                let c = #[trigger] xml_escaped(s)[i];
                &&& c != '<' && c != '>' && c != '"' && c != '\''
                &&& !((c as u32) < 0x20 && c != '\t' && c != '\n' && c != '\r')
            },
    decreases s.len(),
{
    if s.len() > 0 {
        lemma_xml_escaped_is_inert(s.drop_last());
        let prev = xml_escaped(s.drop_last());
        let piece = xml_escape_char(s.last());
        assert forall|i: int| 0 <= i < xml_escaped(s).len() implies {
            let c = #[trigger] xml_escaped(s)[i];
            &&& c != '<' && c != '>' && c != '"' && c != '\''
            &&& !((c as u32) < 0x20 && c != '\t' && c != '\n' && c != '\r')
        } by {
            if i >= prev.len() {
                assert(xml_escaped(s)[i] == piece[i - prev.len()]);
            } else {
                assert(xml_escaped(s)[i] == prev[i]);
            }
        }
    }
}

/// Text with no character that needs escaping is left untouched.
pub proof fn lemma_xml_escape_keeps_plain_text(s: Seq<char>)
    requires
        forall|i: int| 0 <= i < s.len() ==> !xml_special(#[trigger] s[i]),
    ensures
        xml_escaped(s) == s,
    decreases s.len(),
{
    if s.len() > 0 {
        lemma_xml_escape_keeps_plain_text(s.drop_last());
        assert(s.drop_last().push(s.last()) =~= s);
    }
}

/// A control character that XML text cannot hold: below U+0020 and not
/// tab, line feed or carriage return.
pub open spec fn xml_forbidden_control(c: char) -> bool {
    (c as u32) < 0x20 && c != '\t' && c != '\n' && c != '\r'
}

/// `s` without the control characters that XML text cannot hold.
pub open spec fn strip_controls(s: Seq<char>) -> Seq<char>
    decreases s.len(),
{
    if s.len() == 0 {
        Seq::<char>::empty()
    } else if xml_forbidden_control(s.last()) {
        strip_controls(s.drop_last())
    } else {
        strip_controls(s.drop_last()).push(s.last())
    }
}

/// The five XML entities the escape writes.
pub open spec fn xml_entities() -> Seq<Seq<char>> {
    seq![
        xml_escape_char('&'),
        xml_escape_char('<'),
        xml_escape_char('>'),
        xml_escape_char('"'),
        xml_escape_char('\''),
    ]
}

/// Reads the five entities back as the characters they stand for; every
/// other character is kept.
pub open spec fn xml_unescaped(t: Seq<char>) -> Seq<char>
    decreases t.len(),
{
    if t.len() == 0 {
        Seq::<char>::empty()
    } else if has_at(t, 0, xml_escape_char('&')) {
        seq!['&'] + xml_unescaped(t.skip(5))
    } else if has_at(t, 0, xml_escape_char('<')) {
        seq!['<'] + xml_unescaped(t.skip(4))
    } else if has_at(t, 0, xml_escape_char('>')) {
        seq!['>'] + xml_unescaped(t.skip(4))
    } else if has_at(t, 0, xml_escape_char('"')) {
        seq!['"'] + xml_unescaped(t.skip(6))
    } else if has_at(t, 0, xml_escape_char('\'')) {
        seq!['\''] + xml_unescaped(t.skip(6))
    } else {
        seq![t[0]] + xml_unescaped(t.drop_first())
    }
}

/// Escaping distributes over concatenation.
pub proof fn lemma_xml_escaped_concat(a: Seq<char>, b: Seq<char>)
    ensures
        xml_escaped(a + b) == xml_escaped(a) + xml_escaped(b),
    decreases b.len(),
{
    if b.len() == 0 {
        assert(a + b =~= a);
        assert(xml_escaped(a) + xml_escaped(b) =~= xml_escaped(a));
    } else {
        lemma_xml_escaped_concat(a, b.drop_last());
        assert((a + b).drop_last() =~= a + b.drop_last());
        assert((a + b).last() == b.last());
        assert(xml_escaped(a) + xml_escaped(b) =~= xml_escaped(a) + xml_escaped(b.drop_last())
            + xml_escape_char(b.last()));
    }
}

/// Dropping control characters distributes over concatenation.
pub proof fn lemma_strip_controls_concat(a: Seq<char>, b: Seq<char>)
    ensures
        strip_controls(a + b) == strip_controls(a) + strip_controls(b),
    decreases b.len(),
{
    if b.len() == 0 {
        assert(a + b =~= a);
        assert(strip_controls(a) + strip_controls(b) =~= strip_controls(a));
    } else {
        lemma_strip_controls_concat(a, b.drop_last());
        assert((a + b).drop_last() =~= a + b.drop_last());
        assert((a + b).last() == b.last());
        if !xml_forbidden_control(b.last()) {
            assert(strip_controls(a) + strip_controls(b) =~= (strip_controls(a) + strip_controls(
                b.drop_last(),
            )).push(b.last()));
        }
    }
}

/// Reading back the escape of one character in front of `rest` gives that
/// character, unless it is a dropped control character, in front of the
/// reading of `rest`.
proof fn lemma_xml_unescape_step(c: char, rest: Seq<char>)
    ensures
        xml_unescaped(xml_escape_char(c) + rest) == strip_controls(seq![c]) + xml_unescaped(rest),
{
    let one = seq![c];
    assert(one.drop_last() =~= Seq::<char>::empty());
    assert(one.last() == c);
    assert(strip_controls(one.drop_last()) == Seq::<char>::empty());
    assert(strip_controls(one) == (if xml_forbidden_control(c) {
        strip_controls(one.drop_last())
    } else {
        strip_controls(one.drop_last()).push(c)
    }));
    let t = xml_escape_char(c) + rest;
    if xml_forbidden_control(c) && c != '&' && c != '<' && c != '>' && c != '"' && c != '\'' {
        assert(strip_controls(one) =~= Seq::<char>::empty());
        assert(t =~= rest);
        assert(strip_controls(one) + xml_unescaped(rest) =~= xml_unescaped(rest));
    } else {
        assert(strip_controls(one) =~= one);
        assert(t.len() > 0);
        if c == '&' {
            assert(t.subrange(0, 5) =~= xml_escape_char('&'));
            assert(t.skip(5) =~= rest);
        } else if c == '<' {
            assert(t.subrange(0, 4) =~= xml_escape_char('<'));
            assert(t.skip(4) =~= rest);
        } else if c == '>' {
            assert(t.subrange(0, 4) =~= xml_escape_char('>'));
            assert(t.skip(4) =~= rest);
        } else if c == '"' {
            assert(t.subrange(0, 6) =~= xml_escape_char('"'));
            assert(t.skip(6) =~= rest);
        } else if c == '\'' {
            assert(t.subrange(0, 6) =~= xml_escape_char('\''));
            assert(t.skip(6) =~= rest);
        } else {
            assert(t[0] == c);
            assert(!has_at(t, 0, xml_escape_char('&'))) by {
                if has_at(t, 0, xml_escape_char('&')) {
                    assert(t.subrange(0, 5)[0] == t[0]);
                }
            }
            assert(!has_at(t, 0, xml_escape_char('<'))) by {
                if has_at(t, 0, xml_escape_char('<')) {
                    assert(t.subrange(0, 4)[0] == t[0]);
                }
            }
            assert(!has_at(t, 0, xml_escape_char('>'))) by {
                if has_at(t, 0, xml_escape_char('>')) {
                    assert(t.subrange(0, 4)[0] == t[0]);
                }
            }
            assert(!has_at(t, 0, xml_escape_char('"'))) by {
                if has_at(t, 0, xml_escape_char('"')) {
                    assert(t.subrange(0, 6)[0] == t[0]);
                }
            }
            assert(!has_at(t, 0, xml_escape_char('\''))) by {
                if has_at(t, 0, xml_escape_char('\'')) {
                    assert(t.subrange(0, 6)[0] == t[0]);
                }
            }
            assert(t.drop_first() =~= rest);
        }
    }
}

/// Reading the entities of escaped text back gives the text, less the
/// control characters that XML cannot hold.
pub proof fn lemma_xml_unescape_escaped(s: Seq<char>)
    ensures
        xml_unescaped(xml_escaped(s)) == strip_controls(s),
    decreases s.len(),
{
    if s.len() > 0 {
        let rest = s.drop_first();
        let one = seq![s[0]];
        assert(one + rest =~= s);
        lemma_xml_escaped_concat(one, rest);
        lemma_strip_controls_concat(one, rest);
        assert(one.drop_last() =~= Seq::<char>::empty());
        assert(one.last() == s[0]);
        assert(xml_escaped(one) == xml_escaped(one.drop_last()) + xml_escape_char(one.last()));
        assert(xml_escaped(one) =~= xml_escape_char(s[0]));
        lemma_xml_unescape_step(s[0], xml_escaped(rest));
        lemma_xml_unescape_escaped(rest);
    }
}

/// Every `&` in escaped text begins one of the five entities.
pub proof fn lemma_xml_ampersands_begin_entities(s: Seq<char>)
    ensures
        forall|i: int|
            0 <= i < xml_escaped(s).len() && #[trigger] xml_escaped(s)[i] == '&' ==> exists|k: int|
                0 <= k < 5 && has_at(xml_escaped(s), i, #[trigger] xml_entities()[k]),
    decreases s.len(),
{
    if s.len() > 0 {
        lemma_xml_ampersands_begin_entities(s.drop_last());
        let prev = xml_escaped(s.drop_last());
        let c = s.last();
        let piece = xml_escape_char(c);
        let t = xml_escaped(s);
        assert(t == prev + piece);
        assert forall|i: int| 0 <= i < t.len() && #[trigger] t[i] == '&' implies exists|k: int|
            0 <= k < 5 && has_at(t, i, #[trigger] xml_entities()[k]) by {
            if i < prev.len() {
                assert(prev[i] == '&');
                let k = choose|k: int| 0 <= k < 5 && has_at(prev, i, #[trigger] xml_entities()[k]);
                let e = xml_entities()[k];
                assert(t.subrange(i, i + e.len()) =~= prev.subrange(i, i + e.len()));
                assert(has_at(t, i, xml_entities()[k]));
            } else {
                let j = i - prev.len();
                assert(piece[j] == '&');
                let k: int = if c == '&' {
                    0
                } else if c == '<' {
                    1
                } else if c == '>' {
                    2
                } else if c == '"' {
                    3
                } else {
                    4
                };
                assert(j == 0);
                assert(t.subrange(i, i + piece.len()) =~= piece);
                assert(xml_entities()[k] == piece);
            }
        }
    }
}

/// The executable path is the plist's one program argument, taken
/// literally: the plist is the fixed text up to the `<string>` that opens
/// the argument, then the escaped path (which holds no `<`), then text that
/// starts by closing that `<string>`.
pub proof fn lemma_plist_argument_is_literal(exe: Seq<char>, log: Seq<char>)
    ensures
        ({
            let prefix = PLIST_HEAD@ + LABEL@ + PLIST_BEFORE_EXE@;
            let rest = PLIST_BEFORE_STDOUT@ + xml_escaped(log) + PLIST_BEFORE_STDERR@
                + xml_escaped(log) + PLIST_END@;
            &&& plist_of(exe, log) == prefix + xml_escaped(exe) + rest
            &&& forall|i: int| 0 <= i < xml_escaped(exe).len() ==> #[trigger] xml_escaped(exe)[i] != '<'
            &&& rest.len() > 0 && rest[0] == '<'
            &&& PLIST_BEFORE_EXE@.len() >= 8 && PLIST_BEFORE_EXE@.subrange(
                PLIST_BEFORE_EXE@.len() - 8,
                PLIST_BEFORE_EXE@.len() as int,
            ) == "<string>"@
        }),
{
    lemma_xml_escaped_is_inert(exe);
    reveal_strlit("<string>");
    reveal_strlit("</string>\n    <key>ProgramArguments</key>\n    <array>\n        <string>");
    reveal_strlit("</string>\n    </array>\n    <key>RunAtLoad</key>\n    <true/>\n    <key>KeepAlive</key>\n    <false/>\n    <key>ProcessType</key>\n    <string>Interactive</string>\n    <key>StandardOutPath</key>\n    <string>");
    let prefix = PLIST_HEAD@ + LABEL@ + PLIST_BEFORE_EXE@;
    let rest = PLIST_BEFORE_STDOUT@ + xml_escaped(log) + PLIST_BEFORE_STDERR@ + xml_escaped(log)
        + PLIST_END@;
    assert(plist_of(exe, log) =~= prefix + xml_escaped(exe) + rest);
    assert(PLIST_BEFORE_EXE@.subrange(PLIST_BEFORE_EXE@.len() - 8, PLIST_BEFORE_EXE@.len() as int)
        =~= "<string>"@);
}

} // verus!
