use vstd::prelude::*;

use crate::json::json_escaped;
use crate::json::json_obj;
use crate::json::json_objs;
use crate::json::json_spec;
use crate::json::lemma_json_escaped_string_ok;
use crate::json::lemma_plain_body_ok;
use crate::json::lemma_quoted_body_valid;
use crate::json::valid_json_string;
use crate::matrix::MatrixRow;
use crate::matrix::RunConfiguration;
use crate::render::csv_record;
use crate::render::csv_records;
use crate::render::csv_spec;
use crate::render::joined;
use crate::render::md_lines;
use crate::render::md_row_line;
use crate::render::markdown_spec;
use crate::render::quoted;
use crate::urls::badge_url_spec;
use crate::urls::workflow_url_spec;

verus! {

/// Law: the tabular report is exactly one header block followed by the
/// row lines joined in order — one line per row, the line at position i
/// rendering the row at position i, with no reordering, dropping or
/// duplication.
pub proof fn lemma_markdown_shape(rows: Seq<MatrixRow>, cfg: RunConfiguration)
    ensures
        markdown_spec(rows, cfg) == "| Variation | Base Image | Toolchain Channel | Target | Status |\n"@
            + "| --- | --- | --- | --- | --- |\n"@ + joined(md_lines(rows, cfg)),
        md_lines(rows, cfg).len() == rows.len(),
        forall|i: int|
            0 <= i < rows.len() ==> md_lines(rows, cfg)[i] == md_row_line(rows[i], cfg),
        forall|i: int|
            0 <= i < rows.len() ==> (#[trigger] md_lines(rows, cfg)[i]).last() == '\n',
{
    reveal_strlit(") |\n");
}

/// Law: the delimited report is exactly one header record followed by
/// the data records joined in order — one record per row, the record at
/// position i rendering the row at position i.
pub proof fn lemma_csv_shape(rows: Seq<MatrixRow>, cfg: RunConfiguration)
    ensures
        csv_spec(rows, cfg) == "\"variation\",\"base_image\",\"toolchain_channel\",\"target\",\"badge_url\",\"workflow_url\"\n"@
            + joined(csv_records(rows, cfg)),
        csv_records(rows, cfg).len() == rows.len(),
        forall|i: int|
            0 <= i < rows.len() ==> csv_records(rows, cfg)[i] == csv_record(rows[i], cfg),
        forall|i: int|
            0 <= i < rows.len() ==> (#[trigger] csv_records(rows, cfg)[i]).last() == '\n',
{
    reveal_strlit("\"\n");
}

/// The object blocks of the structured document, in matrix order: each
/// row's object, followed by a separating comma and newline except after
/// the last, which a newline alone follows.
pub open spec fn json_blocks(rows: Seq<MatrixRow>, cfg: RunConfiguration) -> Seq<Seq<char>> {
    rows.map(
        |i: int, row: MatrixRow|
            json_obj(row, cfg) + (if i == rows.len() - 1 {
                "\n"@
            } else {
                ",\n"@
            }),
    )
}

proof fn lemma_json_objs_joined(rows: Seq<MatrixRow>, cfg: RunConfiguration)
    ensures
        json_objs(rows, cfg) == joined(json_blocks(rows, cfg)),
    decreases rows.len(),
{
    let blocks = json_blocks(rows, cfg);
    if rows.len() == 0 {
        assert(blocks =~= Seq::<Seq<char>>::empty());
    } else if rows.len() == 1 {
        assert(blocks[0] == json_obj(rows[0], cfg) + "\n"@);
        assert(blocks.drop_first() =~= Seq::<Seq<char>>::empty());
        assert(joined(blocks) == (json_obj(rows[0], cfg) + "\n"@) + joined(
            Seq::<Seq<char>>::empty(),
        ));
        assert(json_objs(rows, cfg) =~= joined(blocks));
    } else {
        lemma_json_objs_joined(rows.drop_first(), cfg);
        assert(blocks.drop_first() =~= json_blocks(rows.drop_first(), cfg));
        assert(blocks[0] == json_obj(rows[0], cfg) + ",\n"@);
        assert(joined(blocks) == (json_obj(rows[0], cfg) + ",\n"@) + json_objs(
            rows.drop_first(),
            cfg,
        ));
        assert(json_objs(rows, cfg) == json_obj(rows[0], cfg) + ",\n"@ + json_objs(
            rows.drop_first(),
            cfg,
        ));
    }
}

/// Law: the structured document is the empty array for zero rows, and
/// otherwise exactly the object blocks joined in order between the array
/// delimiters — one object per row, the block at position i rendering
/// the row at position i.
pub proof fn lemma_json_shape(rows: Seq<MatrixRow>, cfg: RunConfiguration)
    ensures
        rows.len() == 0 ==> json_spec(rows, cfg) == "[]"@,
        rows.len() > 0 ==> json_spec(rows, cfg) == "[\n"@ + joined(json_blocks(rows, cfg)) + "]"@,
        json_blocks(rows, cfg).len() == rows.len(),
        forall|i: int|
            0 <= i < rows.len() ==> json_blocks(rows, cfg)[i] == json_obj(rows[i], cfg) + (if i
                == rows.len() - 1 {
                "\n"@
            } else {
                ",\n"@
            }),
        forall|i: int|
            0 <= i < rows.len() ==> (#[trigger] json_blocks(rows, cfg)[i]).last() == '\n',
{
    lemma_json_objs_joined(rows, cfg);
    reveal_strlit("\n");
    reveal_strlit(",\n");
}

/// The twelve member strings of one document object — six keys, six
/// values — each a complete, well-formed document string.
proof fn lemma_member_strings_valid(row: MatrixRow, cfg: RunConfiguration)
    ensures
        valid_json_string(quoted("variation"@)),
        valid_json_string(quoted("base_image"@)),
        valid_json_string(quoted("toolchain_channel"@)),
        valid_json_string(quoted("target"@)),
        valid_json_string(quoted("badge_url"@)),
        valid_json_string(quoted("workflow_url"@)),
        valid_json_string(quoted(json_escaped(row.name@))),
        valid_json_string(quoted(json_escaped(row.base_image@))),
        valid_json_string(quoted(json_escaped(row.toolchain_channel@))),
        valid_json_string(quoted(json_escaped(row.target@))),
        valid_json_string(quoted(json_escaped(badge_url_spec(row, cfg)))),
        valid_json_string(quoted(json_escaped(workflow_url_spec(row, cfg)))),
{
    reveal_strlit("variation");
    reveal_strlit("base_image");
    reveal_strlit("toolchain_channel");
    reveal_strlit("target");
    reveal_strlit("badge_url");
    reveal_strlit("workflow_url");
    lemma_plain_body_ok("variation"@);
    lemma_plain_body_ok("base_image"@);
    lemma_plain_body_ok("toolchain_channel"@);
    lemma_plain_body_ok("target"@);
    lemma_plain_body_ok("badge_url"@);
    lemma_plain_body_ok("workflow_url"@);
    lemma_quoted_body_valid("variation"@);
    lemma_quoted_body_valid("base_image"@);
    lemma_quoted_body_valid("toolchain_channel"@);
    lemma_quoted_body_valid("target"@);
    lemma_quoted_body_valid("badge_url"@);
    lemma_quoted_body_valid("workflow_url"@);
    lemma_json_escaped_string_ok(row.name@);
    lemma_json_escaped_string_ok(row.base_image@);
    lemma_json_escaped_string_ok(row.toolchain_channel@);
    lemma_json_escaped_string_ok(row.target@);
    lemma_json_escaped_string_ok(badge_url_spec(row, cfg));
    lemma_json_escaped_string_ok(workflow_url_spec(row, cfg));
    lemma_quoted_body_valid(json_escaped(row.name@));
    lemma_quoted_body_valid(json_escaped(row.base_image@));
    lemma_quoted_body_valid(json_escaped(row.toolchain_channel@));
    lemma_quoted_body_valid(json_escaped(row.target@));
    lemma_quoted_body_valid(json_escaped(badge_url_spec(row, cfg)));
    lemma_quoted_body_valid(json_escaped(workflow_url_spec(row, cfg)));
}

/// Law: each object of the structured document is, character for
/// character, a brace pair around six members — quoted key, colon and
/// space, quoted value — separated by commas, and every key and every
/// value is a complete, well-formed document string. Together with the
/// document-shape and array-delimiter laws this pins the output to the
/// grammar of an array of string-valued objects.
#[verifier::rlimit(100)]
pub proof fn lemma_json_obj_members(row: MatrixRow, cfg: RunConfiguration)
    ensures
        json_obj(row, cfg) == "  {\n    "@ + quoted("variation"@) + ": "@ + quoted(
            json_escaped(row.name@),
        ) + ",\n    "@ + quoted("base_image"@) + ": "@ + quoted(json_escaped(row.base_image@))
            + ",\n    "@ + quoted("toolchain_channel"@) + ": "@ + quoted(
            json_escaped(row.toolchain_channel@),
        ) + ",\n    "@ + quoted("target"@) + ": "@ + quoted(json_escaped(row.target@)) + ",\n    "@
            + quoted("badge_url"@) + ": "@ + quoted(json_escaped(badge_url_spec(row, cfg)))
            + ",\n    "@ + quoted("workflow_url"@) + ": "@ + quoted(
            json_escaped(workflow_url_spec(row, cfg)),
        ) + "\n  }"@,
        valid_json_string(quoted("variation"@)),
        valid_json_string(quoted("base_image"@)),
        valid_json_string(quoted("toolchain_channel"@)),
        valid_json_string(quoted("target"@)),
        valid_json_string(quoted("badge_url"@)),
        valid_json_string(quoted("workflow_url"@)),
        valid_json_string(quoted(json_escaped(row.name@))),
        valid_json_string(quoted(json_escaped(row.base_image@))),
        valid_json_string(quoted(json_escaped(row.toolchain_channel@))),
        valid_json_string(quoted(json_escaped(row.target@))),
        valid_json_string(quoted(json_escaped(badge_url_spec(row, cfg)))),
        valid_json_string(quoted(json_escaped(workflow_url_spec(row, cfg)))),
{
    lemma_member_strings_valid(row, cfg);
    reveal_strlit("variation");
    reveal_strlit("base_image");
    reveal_strlit("toolchain_channel");
    reveal_strlit("target");
    reveal_strlit("badge_url");
    reveal_strlit("workflow_url");
    reveal_strlit("  {\n    ");
    reveal_strlit(": ");
    reveal_strlit(",\n    ");
    reveal_strlit("\n  }");
    reveal_strlit("  {\n    \"variation\": \"");
    reveal_strlit("\",\n    \"base_image\": \"");
    reveal_strlit("\",\n    \"toolchain_channel\": \"");
    reveal_strlit("\",\n    \"target\": \"");
    reveal_strlit("\",\n    \"badge_url\": \"");
    reveal_strlit("\",\n    \"workflow_url\": \"");
    reveal_strlit("\"\n  }");
    assert("  {\n    \"variation\": \""@ =~= "  {\n    "@ + seq!['"'] + "variation"@ + seq!['"']
        + ": "@ + seq!['"']);
    assert("\",\n    \"base_image\": \""@ =~= seq!['"'] + ",\n    "@ + seq!['"'] + "base_image"@
        + seq!['"'] + ": "@ + seq!['"']);
    assert("\",\n    \"toolchain_channel\": \""@ =~= seq!['"'] + ",\n    "@ + seq!['"']
        + "toolchain_channel"@ + seq!['"'] + ": "@ + seq!['"']);
    assert("\",\n    \"target\": \""@ =~= seq!['"'] + ",\n    "@ + seq!['"'] + "target"@
        + seq!['"'] + ": "@ + seq!['"']);
    assert("\",\n    \"badge_url\": \""@ =~= seq!['"'] + ",\n    "@ + seq!['"'] + "badge_url"@
        + seq!['"'] + ": "@ + seq!['"']);
    assert("\",\n    \"workflow_url\": \""@ =~= seq!['"'] + ",\n    "@ + seq!['"']
        + "workflow_url"@ + seq!['"'] + ": "@ + seq!['"']);
    assert("\"\n  }"@ =~= seq!['"'] + "\n  }"@);
    assert(json_obj(row, cfg) =~= "  {\n    "@ + quoted("variation"@) + ": "@ + quoted(
        json_escaped(row.name@),
    ) + ",\n    "@ + quoted("base_image"@) + ": "@ + quoted(json_escaped(row.base_image@))
        + ",\n    "@ + quoted("toolchain_channel"@) + ": "@ + quoted(
        json_escaped(row.toolchain_channel@),
    ) + ",\n    "@ + quoted("target"@) + ": "@ + quoted(json_escaped(row.target@)) + ",\n    "@
        + quoted("badge_url"@) + ": "@ + quoted(json_escaped(badge_url_spec(row, cfg))) + ",\n    "@
        + quoted("workflow_url"@) + ": "@ + quoted(json_escaped(workflow_url_spec(row, cfg)))
        + "\n  }"@);
}

/// Law: every field of a delimited record — the four descriptive fields
/// and the two URLs — is wrapped in exactly one pair of double quotes,
/// and the renderer itself contributes no quote character beyond those
/// pairs.
pub proof fn lemma_csv_record_quoting(row: MatrixRow, cfg: RunConfiguration)
    ensures
        csv_record(row, cfg) == quoted(row.name@) + ","@ + quoted(row.base_image@) + ","@ + quoted(
            row.toolchain_channel@,
        ) + ","@ + quoted(row.target@) + ","@ + quoted(badge_url_spec(row, cfg)) + ","@ + quoted(
            workflow_url_spec(row, cfg),
        ) + "\n"@,
{
    reveal_strlit("\"");
    reveal_strlit(",");
    reveal_strlit("\n");
    reveal_strlit("\",\"");
    reveal_strlit("\"\n");
    assert("\""@ =~= seq!['"']);
    assert(","@ =~= seq![',']);
    assert("\n"@ =~= seq!['\n']);
    assert("\",\""@ =~= seq!['"'] + seq![','] + seq!['"']);
    assert("\"\n"@ =~= seq!['"'] + seq!['\n']);
    assert(csv_record(row, cfg) =~= quoted(row.name@) + ","@ + quoted(row.base_image@) + ","@
        + quoted(row.toolchain_channel@) + ","@ + quoted(row.target@) + ","@ + quoted(
        badge_url_spec(row, cfg),
    ) + ","@ + quoted(workflow_url_spec(row, cfg)) + "\n"@);
}

/// Law: the delimited header record, too, has each of its six column
/// names wrapped in exactly one pair of double quotes, with no other
/// quote character anywhere in the record.
pub proof fn lemma_csv_header_quoting()
    ensures
        "\"variation\",\"base_image\",\"toolchain_channel\",\"target\",\"badge_url\",\"workflow_url\"\n"@
            == quoted("variation"@) + ","@ + quoted("base_image"@) + ","@ + quoted(
            "toolchain_channel"@,
        ) + ","@ + quoted("target"@) + ","@ + quoted("badge_url"@) + ","@ + quoted("workflow_url"@)
            + "\n"@,
{
    reveal_strlit(
        "\"variation\",\"base_image\",\"toolchain_channel\",\"target\",\"badge_url\",\"workflow_url\"\n",
    );
    reveal_strlit("variation");
    reveal_strlit("base_image");
    reveal_strlit("toolchain_channel");
    reveal_strlit("target");
    reveal_strlit("badge_url");
    reveal_strlit("workflow_url");
    reveal_strlit(",");
    reveal_strlit("\n");
    assert("\"variation\",\"base_image\",\"toolchain_channel\",\"target\",\"badge_url\",\"workflow_url\"\n"@
        =~= quoted("variation"@) + ","@ + quoted("base_image"@) + ","@ + quoted(
        "toolchain_channel"@,
    ) + ","@ + quoted("target"@) + ","@ + quoted("badge_url"@) + ","@ + quoted("workflow_url"@)
        + "\n"@);
}

/// Law: zero rows yield header-only output in all three formats — the
/// two tabular header lines, the delimited header record, and the empty
/// array — never an error.
pub proof fn lemma_zero_rows_header_only(cfg: RunConfiguration)
    ensures
        markdown_spec(Seq::empty(), cfg) == "| Variation | Base Image | Toolchain Channel | Target | Status |\n"@
            + "| --- | --- | --- | --- | --- |\n"@,
        csv_spec(Seq::empty(), cfg) == "\"variation\",\"base_image\",\"toolchain_channel\",\"target\",\"badge_url\",\"workflow_url\"\n"@,
        json_spec(Seq::empty(), cfg) == "[]"@,
{
    assert(md_lines(Seq::empty(), cfg) =~= Seq::<Seq<char>>::empty());
    assert(csv_records(Seq::empty(), cfg) =~= Seq::<Seq<char>>::empty());
    assert(markdown_spec(Seq::empty(), cfg) =~= "| Variation | Base Image | Toolchain Channel | Target | Status |\n"@
        + "| --- | --- | --- | --- | --- |\n"@);
    assert(csv_spec(Seq::empty(), cfg) =~= "\"variation\",\"base_image\",\"toolchain_channel\",\"target\",\"badge_url\",\"workflow_url\"\n"@);
}

/// Law: the structured document is always a complete array — its first
/// character is the opening bracket and its last the closing bracket,
/// for the empty row sequence as for any other.
pub proof fn lemma_json_doc_is_array(rows: Seq<MatrixRow>, cfg: RunConfiguration)
    ensures
        json_spec(rows, cfg).len() >= 2,
        json_spec(rows, cfg).first() == '[',
        json_spec(rows, cfg).last() == ']',
{
    reveal_strlit("[]");
    reveal_strlit("[\n");
    reveal_strlit("]");
}

} // verus!
