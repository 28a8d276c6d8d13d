use status_table::matrix::{default_matrix, MatrixRow, RunConfiguration};
use status_table::render::{render, render_csv, render_markdown, Format};
use status_table::json::render_json;

fn row(name: &str, base_image: &str, toolchain_channel: &str, target: &str) -> MatrixRow {
    MatrixRow {
        name: name.to_string(),
        base_image: base_image.to_string(),
        toolchain_channel: toolchain_channel.to_string(),
        target: target.to_string(),
    }
}

fn config(repository: &str, workflow: &str, branch: &str) -> RunConfiguration {
    RunConfiguration {
        repository: repository.to_string(),
        workflow: workflow.to_string(),
        branch: branch.to_string(),
    }
}

fn example_config() -> RunConfiguration {
    config("org/repo", "matrix-build.yml", "main")
}

const MD_HEADER: &str =
    "| Variation | Base Image | Toolchain Channel | Target | Status |\n| --- | --- | --- | --- | --- |\n";
const CSV_HEADER: &str = "\"variation\",\"base_image\",\"toolchain_channel\",\"target\",\"badge_url\",\"workflow_url\"\n";

#[test]
fn default_matrix_contents() {
    let rows = default_matrix();
    assert_eq!(rows.len(), 3);
    assert_eq!(rows[0].name, "ubuntu-stable-x86_64");
    assert_eq!(rows[0].base_image, "ubuntu:22.04");
    assert_eq!(rows[0].toolchain_channel, "stable");
    assert_eq!(rows[0].target, "x86_64-unknown-linux-gnu");
    assert_eq!(rows[1].name, "ubuntu-nightly-aarch64");
    assert_eq!(rows[1].base_image, "ubuntu:24.04");
    assert_eq!(rows[1].toolchain_channel, "nightly");
    assert_eq!(rows[1].target, "aarch64-unknown-linux-gnu");
    assert_eq!(rows[2].name, "debian-beta-x86_64");
    assert_eq!(rows[2].base_image, "debian:bookworm");
    assert_eq!(rows[2].toolchain_channel, "beta");
    assert_eq!(rows[2].target, "x86_64-unknown-linux-gnu");
}

#[test]
fn markdown_example_row_line() {
    let rows = vec![row(
        "ubuntu-stable-x86_64",
        "ubuntu:22.04",
        "stable",
        "x86_64-unknown-linux-gnu",
    )];
    let out = render_markdown(&rows, &example_config());
    let badge = rows[0].badge_url(&example_config());
    let workflow = rows[0].workflow_url(&example_config());
    let expected_line = format!(
        "| `ubuntu-stable-x86_64` | `ubuntu:22.04` | `stable` | `x86_64-unknown-linux-gnu` | [![ubuntu-stable-x86_64]({badge})]({workflow}) |"
    );
    assert_eq!(out, format!("{MD_HEADER}{expected_line}\n"));
}

#[test]
fn markdown_zero_rows_header_only() {
    let out = render_markdown(&Vec::new(), &example_config());
    assert_eq!(out, MD_HEADER);
}

#[test]
fn csv_zero_rows_header_only() {
    let out = render_csv(&Vec::new(), &example_config());
    assert_eq!(out, CSV_HEADER);
}

#[test]
fn json_zero_rows_empty_array() {
    let out = render_json(&Vec::new(), &example_config());
    assert_eq!(out, "[]");
    let value: serde_json::Value = serde_json::from_str(&out).unwrap();
    assert!(value.is_array());
    assert_eq!(value.as_array().unwrap().len(), 0);
}

#[test]
fn markdown_line_count() {
    let out = render_markdown(&default_matrix(), &example_config());
    assert_eq!(out.lines().count(), 5);
    assert!(out.ends_with('\n'));
}

#[test]
fn csv_line_count() {
    let out = render_csv(&default_matrix(), &example_config());
    assert_eq!(out.lines().count(), 4);
    assert!(out.ends_with('\n'));
}

#[test]
fn json_object_count() {
    let out = render_json(&default_matrix(), &example_config());
    let value: serde_json::Value = serde_json::from_str(&out).unwrap();
    assert_eq!(value.as_array().unwrap().len(), 3);
}

#[test]
fn csv_fields_quoted() {
    let cfg = config("o/r", "wf.yml", "dev");
    let rows = vec![row("alpha", "img:1", "stable", "t-1")];
    let out = render_csv(&rows, &cfg);
    let badge = rows[0].badge_url(&cfg);
    let workflow = rows[0].workflow_url(&cfg);
    let expected = format!(
        "{CSV_HEADER}\"alpha\",\"img:1\",\"stable\",\"t-1\",\"{badge}\",\"{workflow}\"\n"
    );
    assert_eq!(out, expected);
    let record = out.lines().nth(1).unwrap();
    for field in record.split("\",\"") {
        let trimmed = field.trim_start_matches('"').trim_end_matches('"');
        assert!(!trimmed.contains('"'));
    }
}

#[test]
fn row_order_preserved() {
    let cfg = example_config();
    let rows = vec![
        row("zeta", "z-img", "nightly", "z-t"),
        row("alpha", "a-img", "stable", "a-t"),
    ];
    let md = render_markdown(&rows, &cfg);
    let md_lines: Vec<&str> = md.lines().collect();
    assert!(md_lines[2].contains("`zeta`"));
    assert!(md_lines[3].contains("`alpha`"));
    let csv = render_csv(&rows, &cfg);
    let csv_lines: Vec<&str> = csv.lines().collect();
    assert!(csv_lines[1].starts_with("\"zeta\""));
    assert!(csv_lines[2].starts_with("\"alpha\""));
    let json = render_json(&rows, &cfg);
    let value: serde_json::Value = serde_json::from_str(&json).unwrap();
    let array = value.as_array().unwrap();
    assert_eq!(array[0]["variation"], serde_json::Value::String("zeta".to_string()));
    assert_eq!(array[1]["variation"], serde_json::Value::String("alpha".to_string()));
}

#[test]
fn json_example_row_document() {
    let cfg = example_config();
    let rows = vec![row(
        "ubuntu-stable-x86_64",
        "ubuntu:22.04",
        "stable",
        "x86_64-unknown-linux-gnu",
    )];
    let out = render_json(&rows, &cfg);
    let badge = rows[0].badge_url(&cfg);
    let workflow = rows[0].workflow_url(&cfg);
    let expected = format!(
        "[\n  {{\n    \"variation\": \"ubuntu-stable-x86_64\",\n    \"base_image\": \"ubuntu:22.04\",\n    \"toolchain_channel\": \"stable\",\n    \"target\": \"x86_64-unknown-linux-gnu\",\n    \"badge_url\": \"{badge}\",\n    \"workflow_url\": \"{workflow}\"\n  }}\n]"
    );
    assert_eq!(out, expected);
}

#[test]
fn json_escaping_round_trips() {
    let cfg = example_config();
    let tricky = "a\"b\\c\nd\te\rf\u{8}g\u{c}h\u{1}i";
    let rows = vec![row(tricky, "img \"quoted\"", "chan\\nel", "tar\nget")];
    let out = render_json(&rows, &cfg);
    let value: serde_json::Value = serde_json::from_str(&out).unwrap();
    let obj = &value.as_array().unwrap()[0];
    assert_eq!(obj["variation"].as_str().unwrap(), tricky);
    assert_eq!(obj["base_image"].as_str().unwrap(), "img \"quoted\"");
    assert_eq!(obj["toolchain_channel"].as_str().unwrap(), "chan\\nel");
    assert_eq!(obj["target"].as_str().unwrap(), "tar\nget");
    assert_eq!(obj["badge_url"].as_str().unwrap(), rows[0].badge_url(&cfg));
    assert_eq!(obj["workflow_url"].as_str().unwrap(), rows[0].workflow_url(&cfg));
}

#[test]
fn render_dispatch_matches_each_renderer() {
    let cfg = example_config();
    let rows = default_matrix();
    assert_eq!(render(Format::Markdown, &rows, &cfg), render_markdown(&rows, &cfg));
    assert_eq!(render(Format::Csv, &rows, &cfg), render_csv(&rows, &cfg));
    assert_eq!(render(Format::Json, &rows, &cfg), render_json(&rows, &cfg));
}
