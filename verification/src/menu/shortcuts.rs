//! The "Keyboard Shortcuts" cheat sheet, rendered from the live bindings.

use vstd::prelude::*;
use crate::config::settings::HotkeyConfig;
use crate::hotkey::keys::{key_alias, key_name, modifier_from_name, KeyCode, Modifier};
use crate::layout::action::{all_actions, LayoutAction};
use crate::text::{
    ascii_lowered, has_at, joined, push_char, split_on, split_str, str_eq, to_ascii_lowercase, to_uppercase,
    trim, trimmed, uppercase_of,
};

verus! {

/// What one character becomes in the generated page: the five markup
/// characters turn into entities, everything else is kept.
pub open spec fn html_escape_char(c: char) -> Seq<char> {
    if c == '&' {
        seq!['&', 'a', 'm', 'p', ';']
    } else if c == '<' {
        seq!['&', 'l', 't', ';']
    } else if c == '>' {
        seq!['&', 'g', 't', ';']
    } else if c == '"' {
        seq!['&', 'q', 'u', 'o', 't', ';']
    } else if c == '\'' {
        seq!['&', '#', '3', '9', ';']
    } else {
        seq![c]
    }
}

/// `s` with every character replaced by its HTML form.
pub open spec fn html_escaped(s: Seq<char>) -> Seq<char>
    decreases s.len(),
{
    if s.len() == 0 {
        Seq::<char>::empty()
    } else {
        html_escaped(s.drop_last()) + html_escape_char(s.last())
    }
}

/// Escape text interpolated into the generated page.
pub fn html_escape(s: &str) -> (out: String)
    ensures
        out@ == html_escaped(s@),
{
    let n = s.unicode_len();
    let mut out = String::new();
    let mut i: usize = 0;
    while i < n
        invariant
            n == s@.len(),
            i <= n,
            out@ == html_escaped(s@.take(i as int)),
        decreases n - i,
    {
        let c = s.get_char(i);
        proof {
            assert(s@.take(i + 1).drop_last() =~= s@.take(i as int));
            assert(s@.take(i + 1).last() == c);
        }
        let ghost before = out@;
        if c == '&' {
            out.append("&amp;");
            proof { reveal_strlit("&amp;"); }
        } else if c == '<' {
            out.append("&lt;");
            proof { reveal_strlit("&lt;"); }
        } else if c == '>' {
            out.append("&gt;");
            proof { reveal_strlit("&gt;"); }
        } else if c == '"' {
            out.append("&quot;");
            proof { reveal_strlit("&quot;"); }
        } else if c == '\'' {
            out.append("&#39;");
            proof { reveal_strlit("&#39;"); }
        } else {
            push_char(&mut out, c);
        }
        assert(out@ =~= before + html_escape_char(c));
        i = i + 1;
    }
    assert(s@.take(n as int) =~= s@);
    out
}

/// A character that may not appear raw in text placed into the page.
pub open spec fn html_special(c: char) -> bool {
    c == '&' || c == '<' || c == '>' || c == '"' || c == '\''
}

/// Escaped text holds no `<`, `>`, quote or apostrophe, so text from the
/// configuration cannot open a tag or leave an attribute in the page.
pub proof fn lemma_html_escaped_is_inert(s: Seq<char>)
    ensures
        forall|i: int|
            0 <= i < html_escaped(s).len() ==> {
                let c = #[trigger] html_escaped(s)[i];
                c != '<' && c != '>' && c != '"' && c != '\''
            },
    decreases s.len(),
{
    if s.len() > 0 {
        lemma_html_escaped_is_inert(s.drop_last());
        let prev = html_escaped(s.drop_last());
        let piece = html_escape_char(s.last());
        assert forall|i: int| 0 <= i < html_escaped(s).len() implies {
            let c = #[trigger] html_escaped(s)[i];
            c != '<' && c != '>' && c != '"' && c != '\''
        } by {
            if i >= prev.len() {
                assert(html_escaped(s)[i] == piece[i - prev.len()]);
            } else {
                assert(html_escaped(s)[i] == prev[i]);
            }
        }
    }
}

/// Text with no character that needs escaping is left untouched.
pub proof fn lemma_html_escape_keeps_plain_text(s: Seq<char>)
    requires
        forall|i: int| 0 <= i < s.len() ==> !html_special(#[trigger] s[i]),
    ensures
        html_escaped(s) == s,
    decreases s.len(),
{
    if s.len() > 0 {
        lemma_html_escape_keeps_plain_text(s.drop_last());
        assert(s.drop_last().push(s.last()) =~= s);
    }
}

/// The entity that stands for `c` in the page, for the five markup
/// characters.
pub open spec fn html_entities() -> Seq<Seq<char>> {
    seq![
        html_escape_char('&'),
        html_escape_char('<'),
        html_escape_char('>'),
        html_escape_char('"'),
        html_escape_char('\''),
    ]
}

/// Reads the five entities back as the characters they stand for; every
/// other character is kept.
pub open spec fn html_unescaped(t: Seq<char>) -> Seq<char>
    decreases t.len(),
{
    if t.len() == 0 {
        Seq::<char>::empty()
    } else if has_at(t, 0, html_escape_char('&')) {
        seq!['&'] + html_unescaped(t.skip(5))
    } else if has_at(t, 0, html_escape_char('<')) {
        seq!['<'] + html_unescaped(t.skip(4))
    } else if has_at(t, 0, html_escape_char('>')) {
        seq!['>'] + html_unescaped(t.skip(4))
    } else if has_at(t, 0, html_escape_char('"')) {
        seq!['"'] + html_unescaped(t.skip(6))
    } else if has_at(t, 0, html_escape_char('\'')) {
        seq!['\''] + html_unescaped(t.skip(5))
    } else {
        seq![t[0]] + html_unescaped(t.drop_first())
    }
}

/// Escaping distributes over concatenation.
pub proof fn lemma_html_escaped_concat(a: Seq<char>, b: Seq<char>)
    ensures
        html_escaped(a + b) == html_escaped(a) + html_escaped(b),
    decreases b.len(),
{
    if b.len() == 0 {
        assert(a + b =~= a);
        assert(html_escaped(a) + html_escaped(b) =~= html_escaped(a));
    } else {
        lemma_html_escaped_concat(a, b.drop_last());
        assert((a + b).drop_last() =~= a + b.drop_last());
        assert((a + b).last() == b.last());
        assert(html_escaped(a) + html_escaped(b) =~= html_escaped(a) + html_escaped(b.drop_last())
            + html_escape_char(b.last()));
    }
}

/// Reading back the escape of one character in front of `rest` gives the
/// character in front of the reading of `rest`.
proof fn lemma_html_unescape_step(c: char, rest: Seq<char>)
    ensures
        html_unescaped(html_escape_char(c) + rest) == seq![c] + html_unescaped(rest),
{
    let t = html_escape_char(c) + rest;
    assert(t.len() > 0);
    if c == '&' {
        assert(t.subrange(0, 5) =~= html_escape_char('&'));
        assert(t.skip(5) =~= rest);
    } else if c == '<' {
        assert(t.subrange(0, 4) =~= html_escape_char('<'));
        assert(t.skip(4) =~= rest);
    } else if c == '>' {
        assert(t.subrange(0, 4) =~= html_escape_char('>'));
        assert(t.skip(4) =~= rest);
    } else if c == '"' {
        assert(t.subrange(0, 6) =~= html_escape_char('"'));
        assert(t.skip(6) =~= rest);
    } else if c == '\'' {
        assert(t.subrange(0, 5) =~= html_escape_char('\''));
        assert(t.skip(5) =~= rest);
    } else {
        assert(t[0] == c);
        assert(!has_at(t, 0, html_escape_char('&'))) by {
            if has_at(t, 0, html_escape_char('&')) {
                assert(t.subrange(0, 5)[0] == t[0]);
            }
        }
        assert(!has_at(t, 0, html_escape_char('<'))) by {
            if has_at(t, 0, html_escape_char('<')) {
                assert(t.subrange(0, 4)[0] == t[0]);
            }
        }
        assert(!has_at(t, 0, html_escape_char('>'))) by {
            if has_at(t, 0, html_escape_char('>')) {
                assert(t.subrange(0, 4)[0] == t[0]);
            }
        }
        assert(!has_at(t, 0, html_escape_char('"'))) by {
            if has_at(t, 0, html_escape_char('"')) {
                assert(t.subrange(0, 6)[0] == t[0]);
            }
        }
        assert(!has_at(t, 0, html_escape_char('\''))) by {
            if has_at(t, 0, html_escape_char('\'')) {
                assert(t.subrange(0, 5)[0] == t[0]);
            }
        }
        assert(t.drop_first() =~= rest);
    }
}

/// Escaping loses nothing: reading the entities back gives the text.
pub proof fn lemma_html_unescape_escaped(s: Seq<char>)
    ensures
        html_unescaped(html_escaped(s)) == s,
    decreases s.len(),
{
    if s.len() > 0 {
        let rest = s.drop_first();
        lemma_html_escaped_concat(seq![s[0]], rest);
        assert(seq![s[0]] + rest =~= s);
        let one = seq![s[0]];
        assert(one.drop_last() =~= Seq::<char>::empty());
        assert(one.last() == s[0]);
        assert(html_escaped(one) == html_escaped(one.drop_last()) + html_escape_char(one.last()));
        assert(html_escaped(one) =~= html_escape_char(s[0]));
        lemma_html_unescape_step(s[0], html_escaped(rest));
        lemma_html_unescape_escaped(rest);
        assert(seq![s[0]] + rest =~= s);
    }
}

/// Every `&` in escaped text begins one of the five entities.
pub proof fn lemma_html_ampersands_begin_entities(s: Seq<char>)
    ensures
        forall|i: int|
            0 <= i < html_escaped(s).len() && #[trigger] html_escaped(s)[i] == '&' ==> exists|k: int|
                0 <= k < 5 && has_at(html_escaped(s), i, #[trigger] html_entities()[k]),
    decreases s.len(),
{
    if s.len() > 0 {
        lemma_html_ampersands_begin_entities(s.drop_last());
        let prev = html_escaped(s.drop_last());
        let c = s.last();
        let piece = html_escape_char(c);
        let t = html_escaped(s);
        assert(t == prev + piece);
        assert forall|i: int| 0 <= i < t.len() && #[trigger] t[i] == '&' implies exists|k: int|
            0 <= k < 5 && has_at(t, i, #[trigger] html_entities()[k]) by {
            if i < prev.len() {
                assert(prev[i] == '&');
                let k = choose|k: int| 0 <= k < 5 && has_at(prev, i, #[trigger] html_entities()[k]);
                let e = html_entities()[k];
                assert(t.subrange(i, i + e.len()) =~= prev.subrange(i, i + e.len()));
                assert(has_at(t, i, html_entities()[k]));
            } else {
                let j = i - prev.len();
                assert(piece[j] == '&');
                let k: int = if c == '&' {
                    0
                } else if c == '<' {
                    1
                } else if c == '>' {
                    2
                } else if c == '"' {
                    3
                } else {
                    4
                };
                assert(j == 0);
                assert(t.subrange(i, i + piece.len()) =~= piece);
                assert(html_entities()[k] == piece);
            }
        }
    }
}

/// The heading a row of the cheat sheet is grouped under.
pub open spec fn row_group(a: LayoutAction) -> Seq<char> {
    match a {
        LayoutAction::SnapLeftHalf => "Halves"@,
        LayoutAction::SnapRightHalf => "Halves"@,
        LayoutAction::SnapTopHalf => "Halves"@,
        LayoutAction::SnapBottomHalf => "Halves"@,
        LayoutAction::SnapLeftThird => "Thirds"@,
        LayoutAction::SnapCenterThird => "Thirds"@,
        LayoutAction::SnapRightThird => "Thirds"@,
        LayoutAction::SnapLeftTwoThirds => "Thirds"@,
        LayoutAction::SnapRightTwoThirds => "Thirds"@,
        LayoutAction::SnapTopLeft => "Corners"@,
        LayoutAction::SnapTopRight => "Corners"@,
        LayoutAction::SnapBottomLeft => "Corners"@,
        LayoutAction::SnapBottomRight => "Corners"@,
        LayoutAction::Maximize => "Window"@,
        LayoutAction::Center => "Window"@,
        LayoutAction::MoveToNextMonitor => "Displays"@,
        LayoutAction::MoveToPreviousMonitor => "Displays"@,
    }
}

/// The label of an action's row in the cheat sheet.
pub open spec fn row_label(a: LayoutAction) -> Seq<char> {
    match a {
        LayoutAction::SnapLeftHalf => "Left half"@,
        LayoutAction::SnapRightHalf => "Right half"@,
        LayoutAction::SnapTopHalf => "Top half"@,
        LayoutAction::SnapBottomHalf => "Bottom half"@,
        LayoutAction::SnapLeftThird => "Left third"@,
        LayoutAction::SnapCenterThird => "Center third"@,
        LayoutAction::SnapRightThird => "Right third"@,
        LayoutAction::SnapLeftTwoThirds => "Left two-thirds"@,
        LayoutAction::SnapRightTwoThirds => "Right two-thirds"@,
        LayoutAction::SnapTopLeft => "Top left"@,
        LayoutAction::SnapTopRight => "Top right"@,
        LayoutAction::SnapBottomLeft => "Bottom left"@,
        LayoutAction::SnapBottomRight => "Bottom right"@,
        LayoutAction::Maximize => "Maximize"@,
        LayoutAction::Center => "Center"@,
        LayoutAction::MoveToNextMonitor => "Next monitor"@,
        LayoutAction::MoveToPreviousMonitor => "Previous monitor"@,
    }
}

fn group_and_label(a: LayoutAction) -> (r: (&'static str, &'static str))
    ensures
        r.0@ == row_group(a),
        r.1@ == row_label(a),
{
    match a {
        LayoutAction::SnapLeftHalf => ("Halves", "Left half"),
        LayoutAction::SnapRightHalf => ("Halves", "Right half"),
        LayoutAction::SnapTopHalf => ("Halves", "Top half"),
        LayoutAction::SnapBottomHalf => ("Halves", "Bottom half"),
        LayoutAction::SnapLeftThird => ("Thirds", "Left third"),
        LayoutAction::SnapCenterThird => ("Thirds", "Center third"),
        LayoutAction::SnapRightThird => ("Thirds", "Right third"),
        LayoutAction::SnapLeftTwoThirds => ("Thirds", "Left two-thirds"),
        LayoutAction::SnapRightTwoThirds => ("Thirds", "Right two-thirds"),
        LayoutAction::SnapTopLeft => ("Corners", "Top left"),
        LayoutAction::SnapTopRight => ("Corners", "Top right"),
        LayoutAction::SnapBottomLeft => ("Corners", "Bottom left"),
        LayoutAction::SnapBottomRight => ("Corners", "Bottom right"),
        LayoutAction::Maximize => ("Window", "Maximize"),
        LayoutAction::Center => ("Window", "Center"),
        LayoutAction::MoveToNextMonitor => ("Displays", "Next monitor"),
        LayoutAction::MoveToPreviousMonitor => ("Displays", "Previous monitor"),
    }
}

/// Rows in the order they read best: group, label and binding of every
/// action, in `all_actions()` order.
pub fn rows(h: &HotkeyConfig) -> (r: Vec<(&'static str, &'static str, &Option<String>)>)
    ensures
        r.len() == 17,
        forall|i: int|
            0 <= i < 17 ==> {
                let row = #[trigger] r@[i];
                &&& row.0@ == row_group(all_actions()[i])
                &&& row.1@ == row_label(all_actions()[i])
                &&& *row.2 == h.binding_of(all_actions()[i])
            },
{
    let actions = LayoutAction::all();
    let mut r: Vec<(&'static str, &'static str, &Option<String>)> = Vec::new();
    let mut i: usize = 0;
    while i < actions.len()
        invariant
            actions@ == all_actions(),
            i <= actions.len(),
            r.len() == i,
            forall|j: int|
                0 <= j < i ==> {
                    let row = #[trigger] r@[j];
                    &&& row.0@ == row_group(all_actions()[j])
                    &&& row.1@ == row_label(all_actions()[j])
                    &&& *row.2 == h.binding_of(all_actions()[j])
                },
        decreases actions.len() - i,
    {
        let (group, label) = group_and_label(actions[i]);
        r.push((group, label, h.get(actions[i])));
        i = i + 1;
    }
    r
}

/// The key cap text for one (trimmed, ASCII-lower-cased) piece of a
/// binding: a symbol for the modifiers, arrows and return, `Space`, and
/// otherwise the piece in upper case.
pub open spec fn cap_text(q: Seq<char>) -> Seq<char> {
    if q == "ctrl"@ || q == "control"@ {
        "\u{2303}"@
    } else if q == "alt"@ || q == "option"@ {
        "\u{2325}"@
    } else if q == "shift"@ {
        "\u{21e7}"@
    } else if q == "cmd"@ || q == "command"@ || q == "meta"@ || q == "super"@ {
        "\u{2318}"@
    } else if q == "left"@ {
        "\u{2190}"@
    } else if q == "right"@ {
        "\u{2192}"@
    } else if q == "up"@ {
        "\u{2191}"@
    } else if q == "down"@ {
        "\u{2193}"@
    } else if q == "enter"@ || q == "return"@ {
        "\u{23ce}"@
    } else if q == "space"@ {
        "Space"@
    } else {
        uppercase_of(q)
    }
}

/// The characters of the names and caps the key caps use, spelled out.
proof fn lemma_cap_spellings()
    ensures
        "ctrl"@.len() == 4 && "ctrl"@[0] == 'c' && "ctrl"@[1] == 't' && "ctrl"@[2] == 'r' && "ctrl"@[3] == 'l',
        "control"@.len() == 7 && "control"@[0] == 'c' && "control"@[1] == 'o' && "control"@[2] == 'n' && "control"@[3] == 't' && "control"@[4] == 'r' && "control"@[5] == 'o' && "control"@[6] == 'l',
        "alt"@.len() == 3 && "alt"@[0] == 'a' && "alt"@[1] == 'l' && "alt"@[2] == 't',
        "option"@.len() == 6 && "option"@[0] == 'o' && "option"@[1] == 'p' && "option"@[2] == 't' && "option"@[3] == 'i' && "option"@[4] == 'o' && "option"@[5] == 'n',
        "opt"@.len() == 3 && "opt"@[0] == 'o' && "opt"@[1] == 'p' && "opt"@[2] == 't',
        "shift"@.len() == 5 && "shift"@[0] == 's' && "shift"@[1] == 'h' && "shift"@[2] == 'i' && "shift"@[3] == 'f' && "shift"@[4] == 't',
        "cmd"@.len() == 3 && "cmd"@[0] == 'c' && "cmd"@[1] == 'm' && "cmd"@[2] == 'd',
        "command"@.len() == 7 && "command"@[0] == 'c' && "command"@[1] == 'o' && "command"@[2] == 'm' && "command"@[3] == 'm' && "command"@[4] == 'a' && "command"@[5] == 'n' && "command"@[6] == 'd',
        "meta"@.len() == 4 && "meta"@[0] == 'm' && "meta"@[1] == 'e' && "meta"@[2] == 't' && "meta"@[3] == 'a',
        "super"@.len() == 5 && "super"@[0] == 's' && "super"@[1] == 'u' && "super"@[2] == 'p' && "super"@[3] == 'e' && "super"@[4] == 'r',
        "left"@.len() == 4 && "left"@[0] == 'l' && "left"@[1] == 'e' && "left"@[2] == 'f' && "left"@[3] == 't',
        "right"@.len() == 5 && "right"@[0] == 'r' && "right"@[1] == 'i' && "right"@[2] == 'g' && "right"@[3] == 'h' && "right"@[4] == 't',
        "up"@.len() == 2 && "up"@[0] == 'u' && "up"@[1] == 'p',
        "down"@.len() == 4 && "down"@[0] == 'd' && "down"@[1] == 'o' && "down"@[2] == 'w' && "down"@[3] == 'n',
        "enter"@.len() == 5 && "enter"@[0] == 'e' && "enter"@[1] == 'n' && "enter"@[2] == 't' && "enter"@[3] == 'e' && "enter"@[4] == 'r',
        "return"@.len() == 6 && "return"@[0] == 'r' && "return"@[1] == 'e' && "return"@[2] == 't' && "return"@[3] == 'u' && "return"@[4] == 'r' && "return"@[5] == 'n',
        "space"@.len() == 5 && "space"@[0] == 's' && "space"@[1] == 'p' && "space"@[2] == 'a' && "space"@[3] == 'c' && "space"@[4] == 'e',
        "Space"@.len() == 5 && "Space"@[0] == 'S' && "Space"@[1] == 'p' && "Space"@[2] == 'a' && "Space"@[3] == 'c' && "Space"@[4] == 'e',
        "\u{2303}"@ =~= seq!['\u{2303}'],
        "\u{2325}"@ =~= seq!['\u{2325}'],
        "\u{21e7}"@ =~= seq!['\u{21e7}'],
        "\u{2318}"@ =~= seq!['\u{2318}'],
        "\u{2190}"@ =~= seq!['\u{2190}'],
        "\u{2192}"@ =~= seq!['\u{2192}'],
        "\u{2191}"@ =~= seq!['\u{2191}'],
        "\u{2193}"@ =~= seq!['\u{2193}'],
        "\u{23ce}"@ =~= seq!['\u{23ce}'],
{
    reveal_strlit("ctrl");
    reveal_strlit("control");
    reveal_strlit("alt");
    reveal_strlit("option");
    reveal_strlit("opt");
    reveal_strlit("shift");
    reveal_strlit("cmd");
    reveal_strlit("command");
    reveal_strlit("meta");
    reveal_strlit("super");
    reveal_strlit("left");
    reveal_strlit("right");
    reveal_strlit("up");
    reveal_strlit("down");
    reveal_strlit("enter");
    reveal_strlit("return");
    reveal_strlit("space");
    reveal_strlit("Space");
    reveal_strlit("\u{2303}");
    reveal_strlit("\u{2325}");
    reveal_strlit("\u{21e7}");
    reveal_strlit("\u{2318}");
    reveal_strlit("\u{2190}");
    reveal_strlit("\u{2192}");
    reveal_strlit("\u{2191}");
    reveal_strlit("\u{2193}");
    reveal_strlit("\u{23ce}");
}

/// A key that is shown by a symbol rather than by its name.
pub open spec fn has_symbol_cap(k: KeyCode) -> bool {
    k == KeyCode::ArrowLeft || k == KeyCode::ArrowRight || k == KeyCode::ArrowUp
        || k == KeyCode::ArrowDown || k == KeyCode::Enter || k == KeyCode::Space
}

/// The arrow keys are shown as the arrows pointing the way they are named:
/// left U+2190, up U+2191, right U+2192, down U+2193; Return as U+23CE.
pub proof fn lemma_arrow_caps_point_the_named_way()
    ensures
        cap_text(key_name(KeyCode::ArrowLeft)) == seq!['\u{2190}'],
        cap_text(key_name(KeyCode::ArrowUp)) == seq!['\u{2191}'],
        cap_text(key_name(KeyCode::ArrowRight)) == seq!['\u{2192}'],
        cap_text(key_name(KeyCode::ArrowDown)) == seq!['\u{2193}'],
        cap_text(key_name(KeyCode::Enter)) == seq!['\u{23ce}'],
        key_alias(KeyCode::Enter) matches Some(a) && cap_text(a) == seq!['\u{23ce}'],
{
    lemma_cap_spellings();
}

/// Distinct keys shown by a symbol get distinct caps, and none of them
/// looks like the cap of a modifier name (`opt` aside, which is shown
/// spelled out).
pub proof fn lemma_symbol_caps_are_distinct(k1: KeyCode, k2: KeyCode, n: Seq<char>)
    requires
        has_symbol_cap(k1),
        has_symbol_cap(k2),
    ensures
        k1 != k2 ==> cap_text(key_name(k1)) != cap_text(key_name(k2)),
        modifier_from_name(n) is Some && n != "opt"@ ==> cap_text(key_name(k1)) != cap_text(n),
{
    lemma_cap_spellings();
    let c1 = cap_text(key_name(k1));
    let c2 = cap_text(key_name(k2));
    assert(c1.len() > 0 && c2.len() > 0);
    if k1 != k2 {
        assert(c1[0] != c2[0]);
    }
    if modifier_from_name(n) is Some && n != "opt"@ {
        let m = cap_text(n);
        assert(m.len() > 0);
        assert(c1[0] != m[0] || c1.len() != m.len());
    }
}

/// Every modifier name but `opt` is shown as its modifier's symbol:
/// Control U+2303, Alt U+2325, Shift U+21E7, Command U+2318.
pub proof fn lemma_modifier_caps(n: Seq<char>)
    requires
        n != "opt"@,
    ensures
        modifier_from_name(n) == Some(Modifier::Ctrl) ==> cap_text(n) == seq!['\u{2303}'],
        modifier_from_name(n) == Some(Modifier::Alt) ==> cap_text(n) == seq!['\u{2325}'],
        modifier_from_name(n) == Some(Modifier::Shift) ==> cap_text(n) == seq!['\u{21e7}'],
        modifier_from_name(n) == Some(Modifier::Meta) ==> cap_text(n) == seq!['\u{2318}'],
{
    lemma_cap_spellings();
}

/// One piece of a binding as an HTML key cap.
pub open spec fn cap_html(piece: Seq<char>) -> Seq<char> {
    "<kbd>"@ + html_escaped(cap_text(ascii_lowered(trimmed(piece)))) + "</kbd>"@
}

/// A binding as key caps: its pieces between `+` signs, each as a key cap,
/// separated by spaces.
pub open spec fn key_caps_of(binding: Seq<char>) -> Seq<char> {
    joined(split_on(binding, '+').map_values(|p: Seq<char>| cap_html(p)), " "@)
}

fn cap_for(q: &str) -> (r: String)
    ensures
        r@ == cap_text(q@),
{
    if str_eq(q, "ctrl") || str_eq(q, "control") {
        "\u{2303}".to_owned()
    } else if str_eq(q, "alt") || str_eq(q, "option") {
        "\u{2325}".to_owned()
    } else if str_eq(q, "shift") {
        "\u{21e7}".to_owned()
    } else if str_eq(q, "cmd") || str_eq(q, "command") || str_eq(q, "meta") || str_eq(q, "super") {
        "\u{2318}".to_owned()
    } else if str_eq(q, "left") {
        "\u{2190}".to_owned()
    } else if str_eq(q, "right") {
        "\u{2192}".to_owned()
    } else if str_eq(q, "up") {
        "\u{2191}".to_owned()
    } else if str_eq(q, "down") {
        "\u{2193}".to_owned()
    } else if str_eq(q, "enter") || str_eq(q, "return") {
        "\u{23ce}".to_owned()
    } else if str_eq(q, "space") {
        "Space".to_owned()
    } else {
        to_uppercase(q)
    }
}

/// Turn `"ctrl+alt+left"` into key caps.
pub fn key_caps(binding: &str) -> (r: String)
    ensures
        r@ == key_caps_of(binding@),
{
    let parts = split_str(binding, '+');
    let ghost caps = split_on(binding@, '+').map_values(|p: Seq<char>| cap_html(p));
    let mut out = String::new();
    let mut i: usize = 0;
    while i < parts.len()
        invariant
            parts.deep_view() == split_on(binding@, '+'),
            caps == split_on(binding@, '+').map_values(|p: Seq<char>| cap_html(p)),
            i <= parts.len(),
            out@ == joined(caps.take(i as int), " "@),
        decreases parts.len() - i,
    {
        let piece = trim(parts[i].as_str());
        let lowered = to_ascii_lowercase(piece);
        let cap = cap_for(lowered.as_str());
        let escaped = html_escape(cap.as_str());
        let ghost before = out@;
        if i > 0 {
            out.append(" ");
        }
        out.append("<kbd>");
        out.append(escaped.as_str());
        out.append("</kbd>");
        proof {
            assert(parts.deep_view()[i as int] == parts@[i as int]@);
            assert(caps[i as int] == cap_html(parts@[i as int]@));
            assert(caps.take(i + 1).drop_last() =~= caps.take(i as int));
            if i == 0 {
                assert(caps.take(1) =~= seq![caps[0]]);
            }
        }
        i = i + 1;
    }
    assert(caps.take(parts.len() as int) =~= caps);
    out
}

/// The group heading row.
pub open spec fn group_row(group: Seq<char>) -> Seq<char> {
    "<tr class=\"group\"><th colspan=\"2\">"@ + group + "</th></tr>"@
}

/// The row for one bound action.
pub open spec fn action_row(label: Seq<char>, binding: Seq<char>) -> Seq<char> {
    "<tr><td>"@ + label + "</td><td class=\"keys\">"@ + key_caps_of(binding) + "</td></tr>"@
}

/// The table body for the first `n` actions and the group heading last
/// written: each bound action gets a row, preceded by its group's heading
/// whenever the group differs from the last heading written; unbound
/// actions are left out.
pub open spec fn table_body(h: HotkeyConfig, n: int) -> (Seq<char>, Seq<char>)
    decreases n,
{
    if n <= 0 {
        (Seq::<char>::empty(), Seq::<char>::empty())
    } else {
        let (body, current) = table_body(h, n - 1);
        let a = all_actions()[n - 1];
        match h.binding_of(a) {
            None => (body, current),
            Some(b) => {
                let with_heading = if row_group(a) != current {
                    body + group_row(row_group(a))
                } else {
                    body
                };
                (with_heading + action_row(row_label(a), b@), row_group(a))
            },
        }
    }
}

/// The page up to the version number.
pub const PAGE_HEAD: &'static str = r#"<!doctype html>
<html lang="en">
<head>
<meta charset="utf-8">
<title>Windex Shortcuts</title>
<style>
  :root { color-scheme: light dark; }
  body {
    font: 15px/1.5 -apple-system, BlinkMacSystemFont, "SF Pro Text", sans-serif;
    margin: 0; padding: 40px 24px; display: flex; justify-content: center;
    background: Canvas; color: CanvasText;
  }
  main { width: 100%; max-width: 460px; }
  h1 { font-size: 20px; margin: 0 0 4px; }
  p.sub { margin: 0 0 24px; opacity: .6; font-size: 13px; }
  table { width: 100%; border-collapse: collapse; }
  th.group {
    text-align: left; font-size: 11px; letter-spacing: .08em;
    text-transform: uppercase; opacity: .5; padding: 20px 0 6px;
  }
  tr.group:first-child th { padding-top: 0; }
  td { padding: 6px 0; border-top: 1px solid color-mix(in srgb, CanvasText 12%, transparent); }
  td.keys { text-align: right; white-space: nowrap; }
  kbd {
    display: inline-block; min-width: 1.6em; padding: 3px 7px; font: inherit;
    font-size: 13px; text-align: center;
    background: color-mix(in srgb, CanvasText 8%, transparent);
    border: 1px solid color-mix(in srgb, CanvasText 18%, transparent);
    border-radius: 6px;
  }
  footer { margin-top: 28px; font-size: 13px; opacity: .6; }
  code { font-size: 12px; }
</style>
</head>
<body>
<main>
  <h1>Windex "#;

/// The page between the version number and the table body.
pub const PAGE_INTRO: &'static str = "</h1>\n  <p class=\"sub\">Snap the focused window. Edit these in the menu bar under \u{201c}Edit Config\u{2026}\u{201d}.</p>\n  <table>";

/// The page between the table body and the configuration path.
pub const PAGE_FOOTER: &'static str = "</table>\n  <footer>Config file: <code>";

/// The page after the configuration path.
pub const PAGE_END: &'static str = "</code></footer>\n</main>\n</body>\n</html>\n";

/// The cheat sheet for bindings `h`, showing `version` in its title and the
/// configuration path `config_path` (escaped) in its footer.
pub open spec fn page(h: HotkeyConfig, version: Seq<char>, config_path: Seq<char>) -> Seq<char> {
    PAGE_HEAD@ + version + PAGE_INTRO@ + table_body(h, 17).0 + PAGE_FOOTER@ + html_escaped(
        config_path,
    ) + PAGE_END@
}

/// Render the cheat sheet page.
pub fn render(h: &HotkeyConfig, version: &str, config_path: &str) -> (page_html: String)
    ensures
        page_html@ == page(*h, version@, config_path@),
{
    let rows = rows(h);
    let mut body = String::new();
    let mut current_group: &str = "";
    proof {
        reveal_strlit("");
    }
    let mut i: usize = 0;
    while i < rows.len()
        invariant
            rows.len() == 17,
            forall|j: int|
                0 <= j < 17 ==> {
                    let row = #[trigger] rows@[j];
                    &&& row.0@ == row_group(all_actions()[j])
                    &&& row.1@ == row_label(all_actions()[j])
                    &&& *row.2 == h.binding_of(all_actions()[j])
                },
            i <= rows.len(),
            (body@, current_group@) == table_body(*h, i as int),
        decreases rows.len() - i,
    {
        let (group, label, binding) = rows[i];
        let ghost row = rows@[i as int];
        match binding {
            Some(b) => {
                if !str_eq(group, current_group) {
                    body.append("<tr class=\"group\"><th colspan=\"2\">");
                    body.append(group);
                    body.append("</th></tr>");
                    current_group = group;
                }
                body.append("<tr><td>");
                body.append(label);
                body.append("</td><td class=\"keys\">");
                let caps = key_caps(b.as_str());
                body.append(caps.as_str());
                body.append("</td></tr>");
            },
            None => {},
        }
        i = i + 1;
    }
    let mut page_html = String::new();
    page_html.append(PAGE_HEAD);
    page_html.append(version);
    page_html.append(PAGE_INTRO);
    page_html.append(body.as_str());
    page_html.append(PAGE_FOOTER);
    let escaped = html_escape(config_path);
    page_html.append(escaped.as_str());
    page_html.append(PAGE_END);
    page_html
}

} // verus!
