use vstd::prelude::*;
use vstd::string::StringExecFns;

use crate::json::json_spec;
use crate::json::render_json;
use crate::matrix::MatrixRow;
use crate::matrix::RunConfiguration;
use crate::urls::badge_url_spec;
use crate::urls::workflow_url_spec;

verus! {

/// The report formats a caller can request.
#[derive(Clone, Copy, Debug, PartialEq, Eq, Structural)]
pub enum Format {
    Markdown,
    Csv,
    Json,
}

/// What each format's renderer produces for the given rows and
/// configuration.
pub open spec fn render_spec(format: Format, rows: Seq<MatrixRow>, cfg: RunConfiguration) -> Seq<
    char,
> {
    match format {
        Format::Markdown => markdown_spec(rows, cfg),
        Format::Csv => csv_spec(rows, cfg),
        Format::Json => json_spec(rows, cfg),
    }
}

/// Selects the renderer for the requested format and runs it exactly
/// once over the full row sequence.
pub fn render(format: Format, rows: &Vec<MatrixRow>, cfg: &RunConfiguration) -> (r: String)
    ensures
        r@ == render_spec(format, rows@, *cfg),
{
    match format {
        Format::Markdown => render_markdown(rows, cfg),
        Format::Csv => render_csv(rows, cfg),
        Format::Json => render_json(rows, cfg),
    }
}

/// The blocks of a report body, concatenated in order.
pub open spec fn joined(blocks: Seq<Seq<char>>) -> Seq<char>
    decreases blocks.len(),
{
    if blocks.len() == 0 {
        Seq::empty()
    } else {
        blocks[0] + joined(blocks.drop_first())
    }
}

pub proof fn lemma_joined_push(blocks: Seq<Seq<char>>, b: Seq<char>)
    ensures
        joined(blocks.push(b)) == joined(blocks) + b,
    decreases blocks.len(),
{
    let p = blocks.push(b);
    if blocks.len() == 0 {
        assert(p.len() == 1);
        assert(p[0] == b);
        assert(p.drop_first() =~= Seq::<Seq<char>>::empty());
        assert(joined(p) == b + joined(Seq::<Seq<char>>::empty()));
        assert(joined(p) =~= joined(blocks) + b);
    } else {
        assert(p[0] == blocks[0]);
        assert(p.drop_first() =~= blocks.drop_first().push(b));
        lemma_joined_push(blocks.drop_first(), b);
        assert(joined(p) == blocks[0] + (joined(blocks.drop_first()) + b));
        assert(blocks[0] + (joined(blocks.drop_first()) + b) =~= (blocks[0] + joined(
            blocks.drop_first(),
        )) + b);
        assert(joined(blocks) == blocks[0] + joined(blocks.drop_first()));
    }
}

/// The tabular line for one row: the four descriptive fields wrapped in
/// inline code marks, then a badge image linked to the workflow-query
/// page.
pub open spec fn md_row_line(row: MatrixRow, cfg: RunConfiguration) -> Seq<char> {
    "| `"@ + row.name@ + "` | `"@ + row.base_image@ + "` | `"@ + row.toolchain_channel@ + "` | `"@
        + row.target@ + "` | [!["@ + row.name@ + "]("@ + badge_url_spec(row, cfg) + ")]("@
        + workflow_url_spec(row, cfg) + ") |\n"@
}

/// One tabular line per row, in matrix order.
pub open spec fn md_lines(rows: Seq<MatrixRow>, cfg: RunConfiguration) -> Seq<Seq<char>> {
    rows.map_values(|row: MatrixRow| md_row_line(row, cfg))
}

/// The whole tabular report: one header line, one separator line, then
/// the row lines in matrix order.
pub open spec fn markdown_spec(rows: Seq<MatrixRow>, cfg: RunConfiguration) -> Seq<char> {
    "| Variation | Base Image | Toolchain Channel | Target | Status |\n"@
        + "| --- | --- | --- | --- | --- |\n"@ + joined(md_lines(rows, cfg))
}

fn md_row_line_exec(row: &MatrixRow, cfg: &RunConfiguration) -> (r: String)
    ensures
        r@ == md_row_line(*row, *cfg),
{
    let badge = row.badge_url(cfg);
    let workflow = row.workflow_url(cfg);
    let mut out = String::from_str("| `");
    out.append(row.name.as_str());
    out.append("` | `");
    out.append(row.base_image.as_str());
    out.append("` | `");
    out.append(row.toolchain_channel.as_str());
    out.append("` | `");
    out.append(row.target.as_str());
    out.append("` | [![");
    out.append(row.name.as_str());
    out.append("](");
    out.append(badge.as_str());
    out.append(")](");
    out.append(workflow.as_str());
    out.append(") |\n");
    out
}

/// Renders the tabular report for the given rows and configuration.
pub fn render_markdown(rows: &Vec<MatrixRow>, cfg: &RunConfiguration) -> (r: String)
    ensures
        r@ == markdown_spec(rows@, *cfg),
{
    let mut out = String::from_str(
        "| Variation | Base Image | Toolchain Channel | Target | Status |\n",
    );
    out.append("| --- | --- | --- | --- | --- |\n");
    let n = rows.len();
    let mut i: usize = 0;
    while i < n
        invariant
            i <= n,
            n == rows@.len(),
            out@ == markdown_spec(rows@.take(i as int), *cfg),
        decreases n - i,
    {
        let line = md_row_line_exec(&rows[i], cfg);
        out.append(line.as_str());
        proof {
            let s = rows@;
            assert(s.take(i + 1) =~= s.take(i as int).push(s[i as int]));
            assert(md_lines(s.take(i + 1), *cfg) =~= md_lines(s.take(i as int), *cfg).push(
                md_row_line(s[i as int], *cfg),
            ));
            lemma_joined_push(md_lines(s.take(i as int), *cfg), md_row_line(s[i as int], *cfg));
            assert(out@ =~= markdown_spec(s.take(i + 1), *cfg));
        }
        i = i + 1;
    }
    proof {
        assert(rows@.take(n as int) =~= rows@);
    }
    out
}

/// A field wrapped in exactly one pair of double quotes, as the
/// delimited-record format writes every field.
pub open spec fn quoted(field: Seq<char>) -> Seq<char> {
    seq!['"'] + field + seq!['"']
}

/// The delimited record for one row: its four descriptive fields and its
/// two URLs, each double-quoted, separated by commas.
pub open spec fn csv_record(row: MatrixRow, cfg: RunConfiguration) -> Seq<char> {
    "\""@ + row.name@ + "\",\""@ + row.base_image@ + "\",\""@ + row.toolchain_channel@ + "\",\""@
        + row.target@ + "\",\""@ + badge_url_spec(row, cfg) + "\",\""@ + workflow_url_spec(
        row,
        cfg,
    ) + "\"\n"@
}

/// One delimited record per row, in matrix order.
pub open spec fn csv_records(rows: Seq<MatrixRow>, cfg: RunConfiguration) -> Seq<Seq<char>> {
    rows.map_values(|row: MatrixRow| csv_record(row, cfg))
}

/// The whole delimited report: the six-column header record, then one
/// record per row in matrix order.
pub open spec fn csv_spec(rows: Seq<MatrixRow>, cfg: RunConfiguration) -> Seq<char> {
    "\"variation\",\"base_image\",\"toolchain_channel\",\"target\",\"badge_url\",\"workflow_url\"\n"@ + joined(
        csv_records(rows, cfg),
    )
}

fn csv_record_exec(row: &MatrixRow, cfg: &RunConfiguration) -> (r: String)
    ensures
        r@ == csv_record(*row, *cfg),
{
    let badge = row.badge_url(cfg);
    let workflow = row.workflow_url(cfg);
    let mut out = String::from_str("\"");
    out.append(row.name.as_str());
    out.append("\",\"");
    out.append(row.base_image.as_str());
    out.append("\",\"");
    out.append(row.toolchain_channel.as_str());
    out.append("\",\"");
    out.append(row.target.as_str());
    out.append("\",\"");
    out.append(badge.as_str());
    out.append("\",\"");
    out.append(workflow.as_str());
    out.append("\"\n");
    out
}

/// Renders the delimited report for the given rows and configuration.
pub fn render_csv(rows: &Vec<MatrixRow>, cfg: &RunConfiguration) -> (r: String)
    ensures
        r@ == csv_spec(rows@, *cfg),
{
    let mut out = String::from_str(
        "\"variation\",\"base_image\",\"toolchain_channel\",\"target\",\"badge_url\",\"workflow_url\"\n",
    );
    let n = rows.len();
    let mut i: usize = 0;
    while i < n
        invariant
            i <= n,
            n == rows@.len(),
            out@ == csv_spec(rows@.take(i as int), *cfg),
        decreases n - i,
    {
        let record = csv_record_exec(&rows[i], cfg);
        out.append(record.as_str());
        proof {
            let s = rows@;
            assert(s.take(i + 1) =~= s.take(i as int).push(s[i as int]));
            assert(csv_records(s.take(i + 1), *cfg) =~= csv_records(s.take(i as int), *cfg).push(
                csv_record(s[i as int], *cfg),
            ));
            lemma_joined_push(csv_records(s.take(i as int), *cfg), csv_record(s[i as int], *cfg));
            assert(out@ =~= csv_spec(s.take(i + 1), *cfg));
        }
        i = i + 1;
    }
    proof {
        assert(rows@.take(n as int) =~= rows@);
    }
    out
}

} // verus!
