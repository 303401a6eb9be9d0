//! The launch-agent property list that starts the daemon at login.
use vstd::prelude::*;
use vstd::string::StringExecFns;

use crate::text::push_char;

verus! {

/// The launchd label of the daemon's agent.
pub const LABEL: &'static str = "co.myrt.nanomiddleclick";

/// The document up to the agent's label.
pub const PLIST_PROLOGUE: &'static str = "<?xml version=\"1.0\" encoding=\"UTF-8\" ?>\n<!DOCTYPE plist PUBLIC \"-//Apple//DTD PLIST 1.0//EN\"\n    \"http://www.apple.com/DTDs/PropertyList-1.0.dtd\">\n<plist version=\"1.0\">\n<dict>\n  <key>Label</key>\n  <string>";

/// The document from the label to the program path.
pub const PLIST_AFTER_LABEL: &'static str = "</string>\n\n  <key>ProgramArguments</key>\n  <array>\n    <string>";

/// The document from the program path to the standard-output path.
pub const PLIST_AFTER_EXECUTABLE: &'static str = "</string>\n  </array>\n\n  <key>RunAtLoad</key>\n  <true />\n\n  <key>KeepAlive</key>\n  <dict>\n    <key>SuccessfulExit</key>\n    <false />\n  </dict>\n\n  <key>StandardOutPath</key>\n  <string>";

/// The document from the standard-output path to the standard-error path.
pub const PLIST_AFTER_STDOUT: &'static str = "</string>\n\n  <key>StandardErrorPath</key>\n  <string>";

/// The document after the standard-error path.
pub const PLIST_EPILOGUE: &'static str = "</string>\n</dict>\n</plist>\n";

/// The agent's property list: run the program at load, restart it unless it
/// exits successfully, and send its output to the two log files. The paths
/// appear XML-escaped.
pub open spec fn plist_document(
    executable: Seq<char>,
    stdout_log: Seq<char>,
    stderr_log: Seq<char>,
) -> Seq<char> {
    PLIST_PROLOGUE@ + LABEL@ + PLIST_AFTER_LABEL@ + escaped(executable) + PLIST_AFTER_EXECUTABLE@
        + escaped(stdout_log) + PLIST_AFTER_STDOUT@ + escaped(stderr_log) + PLIST_EPILOGUE@
}

/// The characters that stand for `c` in XML character data.
pub open spec fn escape_char(c: char) -> Seq<char> {
    if c == '&' {
        seq!['&', 'a', 'm', 'p', ';']
    } else if c == '<' {
        seq!['&', 'l', 't', ';']
    } else if c == '>' {
        seq!['&', 'g', 't', ';']
    } else if c == '"' {
        seq!['&', 'q', 'u', 'o', 't', ';']
    } else if c == '\'' {
        seq!['&', 'a', 'p', 'o', 's', ';']
    } else {
        seq![c]
    }
}

/// `s` with every XML-sensitive character replaced by its entity.
pub open spec fn escaped(s: Seq<char>) -> Seq<char>
    decreases s.len(),
{
    if s.len() == 0 {
        Seq::empty()
    } else {
        escaped(s.drop_last()) + escape_char(s.last())
    }
}

/// A character that XML markup reserves and character data must escape
/// (`&` itself only introduces entities).
pub open spec fn is_markup_char(c: char) -> bool {
    c == '<' || c == '>' || c == '"' || c == '\''
}

/// Escapes the characters `&`, `<`, `>`, `"` and `'` as XML entities.
pub fn escape_xml(value: &str) -> (r: String)
    ensures
        r@ == escaped(value@),
        forall|i: int| 0 <= i < r@.len() ==> !is_markup_char(#[trigger] r@[i]),
{
    broadcast use vstd::string::group_string_axioms;

    let mut out = String::new();
    for c in it: value.chars()
        invariant
            it.seq() == value@,
            out@ == escaped(value@.take(it.index() as int)),
    {
        let ghost before = out@;
        if c == '&' {
            out.append("&amp;");
            proof {
                reveal_strlit("&amp;");
            }
        } else if c == '<' {
            out.append("&lt;");
            proof {
                reveal_strlit("&lt;");
            }
        } else if c == '>' {
            out.append("&gt;");
            proof {
                reveal_strlit("&gt;");
            }
        } else if c == '"' {
            out.append("&quot;");
            proof {
                reveal_strlit("&quot;");
            }
        } else if c == '\'' {
            out.append("&apos;");
            proof {
                reveal_strlit("&apos;");
            }
        } else {
            push_char(&mut out, c);
        }
        proof {
            let k = it.index() as int;
            let next = value@.take(k + 1);
            assert(next.drop_last() =~= value@.take(k));
            assert(next.last() == c);
            assert(out@ =~= before + escape_char(c));
        }
    }
    proof {
        assert(value@.take(value@.len() as int) =~= value@);
        lemma_escaped_has_no_markup(value@);
    }
    out
}

/// Renders the launch agent's property list for the daemon at
/// `executable_path`, logging to the two given files.
pub fn render_plist(executable_path: &str, stdout_log_path: &str, stderr_log_path: &str) -> (r:
    String)
    ensures
        r@ == plist_document(executable_path@, stdout_log_path@, stderr_log_path@),
{
    let executable = escape_xml(executable_path);
    let stdout = escape_xml(stdout_log_path);
    let stderr = escape_xml(stderr_log_path);
    let mut out = String::new();
    out.append(PLIST_PROLOGUE);
    out.append(LABEL);
    out.append(PLIST_AFTER_LABEL);
    out.append(executable.as_str());
    out.append(PLIST_AFTER_EXECUTABLE);
    out.append(stdout.as_str());
    out.append(PLIST_AFTER_STDOUT);
    out.append(stderr.as_str());
    out.append(PLIST_EPILOGUE);
    out
}

/// Escaped text holds no markup characters.
proof fn lemma_escaped_has_no_markup(s: Seq<char>)
    ensures
        forall|i: int| 0 <= i < escaped(s).len() ==> !is_markup_char(#[trigger] escaped(s)[i]),
    decreases s.len(),
{
    if s.len() > 0 {
        lemma_escaped_has_no_markup(s.drop_last());
        let e = escape_char(s.last());
        let prefix = escaped(s.drop_last());
        assert forall|i: int| 0 <= i < escaped(s).len() implies !is_markup_char(
            #[trigger] escaped(s)[i],
        ) by {
            if i >= prefix.len() {
                assert(escaped(s)[i] == e[i - prefix.len()]);
            } else {
                assert(escaped(s)[i] == prefix[i]);
            }
        }
    }
}


/// A character that XML-escaping replaces: `&`, `<`, `>`, `"` or `'`.
pub open spec fn is_xml_sensitive(c: char) -> bool {
    c == '&' || is_markup_char(c)
}

/// Whether `t` begins with `prefix`.
pub open spec fn starts_with(t: Seq<char>, prefix: Seq<char>) -> bool {
    prefix.len() <= t.len() && t.take(prefix.len() as int) == prefix
}

/// Reads XML character data back: each of the five entities `&amp;`,
/// `&lt;`, `&gt;`, `&quot;` and `&apos;` becomes its character, everything
/// else is kept.
pub open spec fn unescaped(t: Seq<char>) -> Seq<char>
    decreases t.len(),
{
    if t.len() == 0 {
        Seq::empty()
    } else if starts_with(t, escape_char('&')) {
        seq!['&'] + unescaped(t.skip(5))
    } else if starts_with(t, escape_char('<')) {
        seq!['<'] + unescaped(t.skip(4))
    } else if starts_with(t, escape_char('>')) {
        seq!['>'] + unescaped(t.skip(4))
    } else if starts_with(t, escape_char('"')) {
        seq!['"'] + unescaped(t.skip(6))
    } else if starts_with(t, escape_char('\'')) {
        seq!['\''] + unescaped(t.skip(6))
    } else {
        seq![t[0]] + unescaped(t.drop_first())
    }
}

/// Escaping distributes over concatenation.
proof fn lemma_escaped_concat(a: Seq<char>, b: Seq<char>)
    ensures
        escaped(a + b) == escaped(a) + escaped(b),
    decreases b.len(),
{
    if b.len() == 0 {
        assert(a + b =~= a);
        assert(escaped(a) + escaped(b) =~= escaped(a));
    } else {
        lemma_escaped_concat(a, b.drop_last());
        assert((a + b).drop_last() =~= a + b.drop_last());
        assert((a + b).last() == b.last());
        assert(escaped(a + b) =~= escaped(a) + escaped(b));
    }
}

/// Escaped text reads back as the text it was made of.
pub proof fn law_escaping_reads_back(s: Seq<char>)
    ensures
        unescaped(escaped(s)) == s,
    decreases s.len(),
{
    if s.len() > 0 {
        let c = s[0];
        let rest = s.drop_first();
        assert(s =~= seq![c] + rest);
        lemma_escaped_concat(seq![c], rest);
        assert(seq![c].drop_last() =~= Seq::<char>::empty());
        assert(seq![c].last() == c);
        assert(escaped(Seq::<char>::empty()) == Seq::<char>::empty());
        assert(escaped(seq![c]) == escaped(Seq::<char>::empty()) + escape_char(c));
        assert(escaped(seq![c]) =~= escape_char(c));
        let e = escape_char(c);
        let t = e + escaped(rest);
        law_escaping_reads_back(rest);
        assert(t.take(e.len() as int) =~= e);
        assert(t.skip(e.len() as int) =~= escaped(rest));
        if c == '&' {
            assert(unescaped(t) == seq!['&'] + unescaped(t.skip(5)));
        } else if c == '<' {
            assert(!starts_with(t, escape_char('&')));
            assert(unescaped(t) == seq!['<'] + unescaped(t.skip(4)));
        } else if c == '>' {
            assert(!starts_with(t, escape_char('&')));
            assert(!starts_with(t, escape_char('<')));
            assert(unescaped(t) == seq!['>'] + unescaped(t.skip(4)));
        } else if c == '"' {
            assert(!starts_with(t, escape_char('&')));
            assert(!starts_with(t, escape_char('<')));
            assert(!starts_with(t, escape_char('>')));
            assert(unescaped(t) == seq!['"'] + unescaped(t.skip(6)));
        } else if c == '\'' {
            assert(!starts_with(t, escape_char('&')));
            assert(!starts_with(t, escape_char('<')));
            assert(!starts_with(t, escape_char('>')));
            assert(!starts_with(t, escape_char('"')));
            assert(unescaped(t) == seq!['\''] + unescaped(t.skip(6)));
        } else {
            assert(t[0] == c);
            assert(!starts_with(t, escape_char('&')));
            assert(!starts_with(t, escape_char('<')));
            assert(!starts_with(t, escape_char('>')));
            assert(!starts_with(t, escape_char('"')));
            assert(!starts_with(t, escape_char('\'')));
            assert(t.drop_first() =~= escaped(rest));
            assert(unescaped(t) == seq![c] + unescaped(t.drop_first()));
        }
        assert(unescaped(escaped(s)) =~= s);
    }
}

/// Escaping never shortens a text, and lengthens every text that holds an
/// XML-sensitive character.
proof fn lemma_escaped_len(s: Seq<char>)
    ensures
        escaped(s).len() >= s.len(),
        (exists|i: int| 0 <= i < s.len() && is_xml_sensitive(#[trigger] s[i])) ==> escaped(
            s,
        ).len() > s.len(),
    decreases s.len(),
{
    if s.len() > 0 {
        let p = s.drop_last();
        lemma_escaped_len(p);
        if exists|i: int| 0 <= i < s.len() && is_xml_sensitive(#[trigger] s[i]) {
            let i = choose|i: int| 0 <= i < s.len() && is_xml_sensitive(#[trigger] s[i]);
            if i < s.len() - 1 {
                assert(p[i] == s[i]);
            }
        }
    }
}

/// Escaping leaves a text unchanged exactly when it holds no XML-sensitive
/// character.
pub proof fn law_escaping_fixes_only_plain_text(s: Seq<char>)
    ensures
        escaped(s) == s <==> forall|i: int| 0 <= i < s.len() ==> !is_xml_sensitive(#[trigger] s[i]),
    decreases s.len(),
{
    lemma_escaped_len(s);
    if forall|i: int| 0 <= i < s.len() ==> !is_xml_sensitive(#[trigger] s[i]) {
        if s.len() > 0 {
            let p = s.drop_last();
            assert forall|i: int| 0 <= i < p.len() implies !is_xml_sensitive(#[trigger] p[i]) by {
                assert(p[i] == s[i]);
            }
            law_escaping_fixes_only_plain_text(p);
            assert(!is_xml_sensitive(s[s.len() - 1]));
            assert(escaped(s) =~= s);
        } else {
            assert(escaped(s) =~= s);
        }
    } else {
        let i = choose|i: int| 0 <= i < s.len() && is_xml_sensitive(#[trigger] s[i]);
        assert(escaped(s).len() > s.len());
        assert(escaped(s) != s);
    }
}

/// Whether `t` begins with one of the five entities.
pub open spec fn begins_with_entity(t: Seq<char>) -> bool {
    ||| starts_with(t, escape_char('&'))
    ||| starts_with(t, escape_char('<'))
    ||| starts_with(t, escape_char('>'))
    ||| starts_with(t, escape_char('"'))
    ||| starts_with(t, escape_char('\''))
}

proof fn lemma_starts_with_append(x: Seq<char>, y: Seq<char>, prefix: Seq<char>)
    requires
        starts_with(x, prefix),
    ensures
        starts_with(x + y, prefix),
{
    assert((x + y).take(prefix.len() as int) =~= x.take(prefix.len() as int));
}

proof fn lemma_begins_with_entity_append(x: Seq<char>, y: Seq<char>)
    requires
        begins_with_entity(x),
    ensures
        begins_with_entity(x + y),
{
    if starts_with(x, escape_char('&')) {
        lemma_starts_with_append(x, y, escape_char('&'));
    } else if starts_with(x, escape_char('<')) {
        lemma_starts_with_append(x, y, escape_char('<'));
    } else if starts_with(x, escape_char('>')) {
        lemma_starts_with_append(x, y, escape_char('>'));
    } else if starts_with(x, escape_char('"')) {
        lemma_starts_with_append(x, y, escape_char('"'));
    } else {
        lemma_starts_with_append(x, y, escape_char('\''));
    }
}

/// Escaped text holds no `<`, `>`, `"` or `'`, and every `&` in it begins
/// one of the five entities.
pub proof fn law_escaped_ampersands_begin_entities(s: Seq<char>)
    ensures
        forall|i: int|
            #![trigger escaped(s)[i]]
            0 <= i < escaped(s).len() ==> !is_markup_char(escaped(s)[i]) && (escaped(s)[i] == '&'
                ==> begins_with_entity(escaped(s).skip(i))),
    decreases s.len(),
{
    if s.len() > 0 {
        let p = s.drop_last();
        let c = s.last();
        let e = escape_char(c);
        let ep = escaped(p);
        let t = escaped(s);
        law_escaped_ampersands_begin_entities(p);
        assert(t == ep + e);
        assert forall|i: int| 0 <= i < t.len() implies !is_markup_char(#[trigger] t[i]) && (t[i]
            == '&' ==> begins_with_entity(t.skip(i))) by {
            if i < ep.len() {
                assert(t[i] == ep[i]);
                if t[i] == '&' {
                    assert(t.skip(i) =~= ep.skip(i) + e);
                    lemma_begins_with_entity_append(ep.skip(i), e);
                }
            } else {
                let k = i - ep.len();
                assert(t[i] == e[k]);
                assert(t.skip(i) =~= e.skip(k));
                if is_xml_sensitive(c) {
                    assert(e.take(e.len() as int) =~= e);
                    if k == 0 {
                        assert(e.skip(0) =~= e);
                    }
                }
            }
        }
    }
}

} // verus!
