use status_table::matrix::{MatrixRow, RunConfiguration};

fn row(name: &str, base_image: &str, toolchain_channel: &str, target: &str) -> MatrixRow {
    MatrixRow {
        name: name.to_string(),
        base_image: base_image.to_string(),
        toolchain_channel: toolchain_channel.to_string(),
        target: target.to_string(),
    }
}

fn example_row() -> MatrixRow {
    row(
        "ubuntu-stable-x86_64",
        "ubuntu:22.04",
        "stable",
        "x86_64-unknown-linux-gnu",
    )
}

fn example_config() -> RunConfiguration {
    RunConfiguration {
        repository: "org/repo".to_string(),
        workflow: "matrix-build.yml".to_string(),
        branch: "main".to_string(),
    }
}

#[test]
fn badge_url_example_row() {
    let url = example_row().badge_url(&example_config());
    assert_eq!(
        url,
        "https://github.com/org/repo/actions/workflows/matrix-build.yml/badge.svg?branch=main&label=ubuntu%2Dstable%2Dx86%5F64"
    );
    assert!(url.ends_with("badge.svg?branch=main&label=ubuntu%2Dstable%2Dx86%5F64"));
}

#[test]
fn workflow_url_example_row() {
    let url = example_row().workflow_url(&example_config());
    assert_eq!(
        url,
        "https://github.com/org/repo/actions?query=workflow%3A%22Matrix%20Build%22+branch%3Amain+matrix%3Aubuntu%2Dstable%2Dx86%5F64"
    );
}

#[test]
fn encoded_label_is_unreserved_or_percent() {
    let cfg = example_config();
    let r = row("a b/c?d&e=f#g\"h", "img", "stable", "t");
    let badge = r.badge_url(&cfg);
    let label = badge.split("&label=").nth(1).unwrap();
    assert!(!label.is_empty());
    for c in label.chars() {
        assert!(c.is_ascii_alphanumeric() || c == '%', "unexpected char {c:?}");
    }
    let workflow = r.workflow_url(&cfg);
    let matrix = workflow.split("+matrix%3A").nth(1).unwrap();
    for c in matrix.chars() {
        assert!(c.is_ascii_alphanumeric() || c == '%', "unexpected char {c:?}");
    }
}

#[test]
fn empty_name_yields_valid_url() {
    let cfg = example_config();
    let r = row("", "img", "stable", "t");
    let badge = r.badge_url(&cfg);
    assert_eq!(
        badge,
        "https://github.com/org/repo/actions/workflows/matrix-build.yml/badge.svg?branch=main&label="
    );
    let workflow = r.workflow_url(&cfg);
    assert!(workflow.ends_with("+matrix%3A"));
}

#[test]
fn non_ascii_name_is_fully_escaped() {
    let cfg = example_config();
    let r = row("caf\u{e9}", "img", "stable", "t");
    let badge = r.badge_url(&cfg);
    let label = badge.split("&label=").nth(1).unwrap();
    // The accented letter is two UTF-8 bytes, each escaped on its own.
    assert_eq!(label, "caf%C3%A9");
}
