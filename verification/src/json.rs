use vstd::prelude::*;
use vstd::string::StrSliceExecFns;
use vstd::string::StringExecFns;

use crate::encode::hex_upper;
use crate::encode::is_hex_upper_char;
use crate::matrix::MatrixRow;
use crate::matrix::RunConfiguration;
use crate::urls::badge_url_spec;
use crate::urls::workflow_url_spec;

verus! {

/// Relies on std String::push: it appends exactly the given character.
#[verifier::external_body]
fn push_char(out: &mut String, c: char)
    ensures
        final(out)@ == old(out)@ + seq![c],
{
    out.push(c);
}

fn hex_digit(n: u8) -> (c: char)
    requires
        n < 16,
    ensures
        c == hex_upper(n as int),
{
    if n == 0 {
        '0'
    } else if n == 1 {
        '1'
    } else if n == 2 {
        '2'
    } else if n == 3 {
        '3'
    } else if n == 4 {
        '4'
    } else if n == 5 {
        '5'
    } else if n == 6 {
        '6'
    } else if n == 7 {
        '7'
    } else if n == 8 {
        '8'
    } else if n == 9 {
        '9'
    } else if n == 10 {
        'A'
    } else if n == 11 {
        'B'
    } else if n == 12 {
        'C'
    } else if n == 13 {
        'D'
    } else if n == 14 {
        'E'
    } else {
        'F'
    }
}

/// How one character appears inside a document string: quote, backslash
/// and the named control characters get a two-character escape, any other
/// control character a six-character \u escape, and everything else
/// stands as it is.
pub open spec fn json_escaped_char(c: char) -> Seq<char> {
    if c == '"' {
        seq!['\\', '"']
    } else if c == '\\' {
        seq!['\\', '\\']
    } else if c == '\n' {
        seq!['\\', 'n']
    } else if c == '\r' {
        seq!['\\', 'r']
    } else if c == '\t' {
        seq!['\\', 't']
    } else if c == '\u{8}' {
        seq!['\\', 'b']
    } else if c == '\u{c}' {
        seq!['\\', 'f']
    } else if (c as u32) < 32 {
        seq!['\\', 'u', '0', '0', hex_upper(c as u32 as int / 16), hex_upper(c as u32 as int % 16)]
    } else {
        seq![c]
    }
}

/// A text escaped for use inside a document string, character by
/// character.
pub open spec fn json_escaped(s: Seq<char>) -> Seq<char>
    decreases s.len(),
{
    if s.len() == 0 {
        Seq::empty()
    } else {
        json_escaped_char(s[0]) + json_escaped(s.drop_first())
    }
}

proof fn lemma_json_escaped_push(s: Seq<char>, c: char)
    ensures
        json_escaped(s.push(c)) == json_escaped(s) + json_escaped_char(c),
    decreases s.len(),
{
    let p = s.push(c);
    if s.len() == 0 {
        assert(p[0] == c);
        assert(p.drop_first() =~= Seq::<char>::empty());
        assert(json_escaped(p) == json_escaped_char(c) + json_escaped(Seq::<char>::empty()));
        assert(json_escaped(p) =~= json_escaped(s) + json_escaped_char(c));
    } else {
        assert(p[0] == s[0]);
        assert(p.drop_first() =~= s.drop_first().push(c));
        lemma_json_escaped_push(s.drop_first(), c);
        assert(json_escaped(p) == json_escaped_char(s[0]) + (json_escaped(s.drop_first())
            + json_escaped_char(c)));
        assert(json_escaped_char(s[0]) + (json_escaped(s.drop_first()) + json_escaped_char(c)) =~= (
        json_escaped_char(s[0]) + json_escaped(s.drop_first())) + json_escaped_char(c));
        assert(json_escaped(s) == json_escaped_char(s[0]) + json_escaped(s.drop_first()));
    }
}

/// Escapes a text for use inside a document string.
pub fn json_escape(s: &str) -> (r: String)
    ensures
        r@ == json_escaped(s@),
{
    let n = s.unicode_len();
    let mut out = String::new();
    let mut i: usize = 0;
    while i < n
        invariant
            i <= n,
            n == s@.len(),
            out@ == json_escaped(s@.take(i as int)),
        decreases n - i,
    {
        let c = s.get_char(i);
        if c == '"' {
            push_char(&mut out, '\\');
            push_char(&mut out, '"');
        } else if c == '\\' {
            push_char(&mut out, '\\');
            push_char(&mut out, '\\');
        } else if c == '\n' {
            push_char(&mut out, '\\');
            push_char(&mut out, 'n');
        } else if c == '\r' {
            push_char(&mut out, '\\');
            push_char(&mut out, 'r');
        } else if c == '\t' {
            push_char(&mut out, '\\');
            push_char(&mut out, 't');
        } else if c == '\u{8}' {
            push_char(&mut out, '\\');
            push_char(&mut out, 'b');
        } else if c == '\u{c}' {
            push_char(&mut out, '\\');
            push_char(&mut out, 'f');
        } else if (c as u32) < 32 {
            let code = c as u32;
            push_char(&mut out, '\\');
            push_char(&mut out, 'u');
            push_char(&mut out, '0');
            push_char(&mut out, '0');
            push_char(&mut out, hex_digit((code / 16) as u8));
            push_char(&mut out, hex_digit((code % 16) as u8));
        } else {
            push_char(&mut out, c);
        }
        proof {
            assert(s@.take(i + 1) =~= s@.take(i as int).push(s@[i as int]));
            lemma_json_escaped_push(s@.take(i as int), s@[i as int]);
            assert(out@ =~= json_escaped(s@.take(i + 1)));
        }
        i = i + 1;
    }
    proof {
        assert(s@.take(n as int) =~= s@);
    }
    out
}

/// A well-formed document string body: every quote, backslash and
/// control character stands only inside a complete escape, so that
/// surrounding the body with one pair of quotes yields a syntactically
/// valid document string.
pub open spec fn json_string_body_ok(s: Seq<char>) -> bool
    decreases s.len(),
{
    if s.len() == 0 {
        true
    } else if s[0] == '\\' {
        if s.len() < 2 {
            false
        } else if s[1] == 'u' {
            s.len() >= 6 && is_hex_upper_char(s[2]) && is_hex_upper_char(s[3]) && is_hex_upper_char(
                s[4],
            ) && is_hex_upper_char(s[5]) && json_string_body_ok(s.skip(6))
        } else {
            (s[1] == '"' || s[1] == '\\' || s[1] == 'n' || s[1] == 'r' || s[1] == 't' || s[1] == 'b'
                || s[1] == 'f') && json_string_body_ok(s.skip(2))
        }
    } else {
        s[0] != '"' && s[0] as u32 >= 32 && json_string_body_ok(s.skip(1))
    }
}

proof fn lemma_json_escaped_char_prefix_ok(c: char, rest: Seq<char>)
    requires
        json_string_body_ok(rest),
    ensures
        json_string_body_ok(json_escaped_char(c) + rest),
{
    let t = json_escaped_char(c) + rest;
    if c == '"' || c == '\\' || c == '\n' || c == '\r' || c == '\t' || c == '\u{8}' || c == '\u{c}'
    {
        assert(t.skip(2) =~= rest);
        assert(json_string_body_ok(t));
    } else if (c as u32) < 32 {
        assert(t.skip(6) =~= rest);
        assert(json_string_body_ok(t));
    } else {
        assert(t.skip(1) =~= rest);
        assert(json_string_body_ok(t));
    }
}

/// Law: whatever text a field holds, its escaped form is a well-formed
/// document string body — the escaper introduces no stray quote,
/// backslash or control character.
pub proof fn lemma_json_escaped_string_ok(s: Seq<char>)
    ensures
        json_string_body_ok(json_escaped(s)),
    decreases s.len(),
{
    if s.len() > 0 {
        lemma_json_escaped_string_ok(s.drop_first());
        lemma_json_escaped_char_prefix_ok(s[0], json_escaped(s.drop_first()));
    }
}

/// A complete document string: one pair of quotes around a well-formed
/// body.
pub open spec fn valid_json_string(s: Seq<char>) -> bool {
    s.len() >= 2 && s.first() == '"' && s.last() == '"' && json_string_body_ok(
        s.subrange(1, s.len() - 1),
    )
}

/// A text free of quotes, backslashes and control characters is already
/// a well-formed document string body as it stands.
pub proof fn lemma_plain_body_ok(s: Seq<char>)
    requires
        forall|i: int|
            0 <= i < s.len() ==> (#[trigger] s[i]) != '"' && s[i] != '\\' && s[i] as u32 >= 32,
    ensures
        json_string_body_ok(s),
    decreases s.len(),
{
    if s.len() > 0 {
        lemma_plain_body_ok(s.skip(1));
    }
}

/// Wrapping a well-formed body in one pair of quotes yields a complete
/// document string.
pub proof fn lemma_quoted_body_valid(body: Seq<char>)
    requires
        json_string_body_ok(body),
    ensures
        valid_json_string(seq!['"'] + body + seq!['"']),
{
    let q = seq!['"'] + body + seq!['"'];
    assert(q.subrange(1, q.len() - 1) =~= body);
}

/// The document object for one row: its four descriptive fields and its
/// two URLs, each under its stable key, every value a string.
pub open spec fn json_obj(row: MatrixRow, cfg: RunConfiguration) -> Seq<char> {
    "  {\n    \"variation\": \""@ + json_escaped(row.name@) + "\",\n    \"base_image\": \""@
        + json_escaped(row.base_image@) + "\",\n    \"toolchain_channel\": \""@ + json_escaped(
        row.toolchain_channel@,
    ) + "\",\n    \"target\": \""@ + json_escaped(row.target@) + "\",\n    \"badge_url\": \""@
        + json_escaped(badge_url_spec(row, cfg)) + "\",\n    \"workflow_url\": \""@ + json_escaped(
        workflow_url_spec(row, cfg),
    ) + "\"\n  }"@
}

/// The objects of the document body, in matrix order, each followed by a
/// comma and newline except the last, which is followed by a newline
/// alone.
pub open spec fn json_objs(rows: Seq<MatrixRow>, cfg: RunConfiguration) -> Seq<char>
    decreases rows.len(),
{
    if rows.len() == 0 {
        Seq::empty()
    } else if rows.len() == 1 {
        json_obj(rows[0], cfg) + "\n"@
    } else {
        json_obj(rows[0], cfg) + ",\n"@ + json_objs(rows.drop_first(), cfg)
    }
}

/// The whole structured document: an array of one object per row, in
/// matrix order, indented over multiple lines; the empty row sequence
/// yields the empty array.
pub open spec fn json_spec(rows: Seq<MatrixRow>, cfg: RunConfiguration) -> Seq<char> {
    if rows.len() == 0 {
        "[]"@
    } else {
        "[\n"@ + json_objs(rows, cfg) + "]"@
    }
}

fn json_obj_exec(row: &MatrixRow, cfg: &RunConfiguration) -> (r: String)
    ensures
        r@ == json_obj(*row, *cfg),
{
    let badge = row.badge_url(cfg);
    let workflow = row.workflow_url(cfg);
    let mut out = String::from_str("  {\n    \"variation\": \"");
    out.append(json_escape(row.name.as_str()).as_str());
    out.append("\",\n    \"base_image\": \"");
    out.append(json_escape(row.base_image.as_str()).as_str());
    out.append("\",\n    \"toolchain_channel\": \"");
    out.append(json_escape(row.toolchain_channel.as_str()).as_str());
    out.append("\",\n    \"target\": \"");
    out.append(json_escape(row.target.as_str()).as_str());
    out.append("\",\n    \"badge_url\": \"");
    out.append(json_escape(badge.as_str()).as_str());
    out.append("\",\n    \"workflow_url\": \"");
    out.append(json_escape(workflow.as_str()).as_str());
    out.append("\"\n  }");
    out
}

/// Renders the structured document for the given rows and configuration.
/// Total: every input yields a complete document, the empty sequence the
/// empty array.
#[verifier::rlimit(50)]
pub fn render_json(rows: &Vec<MatrixRow>, cfg: &RunConfiguration) -> (r: String)
    ensures
        r@ == json_spec(rows@, *cfg),
{
    let n = rows.len();
    if n == 0 {
        return String::from_str("[]");
    }
    let mut out = String::from_str("[\n");
    proof {
        assert(rows@.skip(0) =~= rows@);
    }
    let mut i: usize = 0;
    while i < n
        invariant
            i <= n,
            0 < n == rows@.len(),
            i < n ==> out@ + json_objs(rows@.skip(i as int), *cfg) == "[\n"@ + json_objs(
                rows@,
                *cfg,
            ),
            i == n ==> out@ == "[\n"@ + json_objs(rows@, *cfg),
        decreases n - i,
    {
        let obj = json_obj_exec(&rows[i], cfg);
        out.append(obj.as_str());
        proof {
            let s = rows@;
            assert(s.skip(i as int)[0] == s[i as int]);
            assert(s.skip(i as int).drop_first() =~= s.skip(i + 1));
        }
        if i + 1 < n {
            out.append(",\n");
            proof {
                let s = rows@;
                assert(json_objs(s.skip(i as int), *cfg) == json_obj(s[i as int], *cfg) + ",\n"@
                    + json_objs(s.skip(i + 1), *cfg));
                assert(out@ + json_objs(s.skip(i + 1), *cfg) =~= "[\n"@ + json_objs(s, *cfg));
            }
        } else {
            out.append("\n");
            proof {
                let s = rows@;
                assert(json_objs(s.skip(i as int), *cfg) == json_obj(s[i as int], *cfg) + "\n"@);
                assert(out@ =~= "[\n"@ + json_objs(s, *cfg));
            }
        }
        i = i + 1;
    }
    out.append("]");
    out
}

} // verus!
