use vstd::prelude::*;

verus! {

/// One build variation of the matrix: a display name plus three
/// descriptive fields shown beside it in every report. The name doubles
/// as a URL query fragment, so rendering percent-encodes it; the other
/// fields are display-only.
pub struct MatrixRow {
    pub name: String,
    pub base_image: String,
    pub toolchain_channel: String,
    pub target: String,
}

impl MatrixRow {
    /// A well-formed row has a non-empty name.
    pub open spec fn wf(self) -> bool {
        self.name@.len() > 0
    }
}

/// Run-time configuration for one rendering pass: where the project is
/// hosted, which workflow file describes the build, and which branch the
/// status links are scoped to. All three are interpolated into URLs
/// verbatim; callers supply URL-safe values.
pub struct RunConfiguration {
    pub repository: String,
    pub workflow: String,
    pub branch: String,
}

/// The fixed build matrix: three variations, in the order every report
/// must present them.
pub fn default_matrix() -> (rows: Vec<MatrixRow>)
    ensures
        rows@.len() == 3,
        rows@[0].name@ == "ubuntu-stable-x86_64"@,
        rows@[0].base_image@ == "ubuntu:22.04"@,
        rows@[0].toolchain_channel@ == "stable"@,
        rows@[0].target@ == "x86_64-unknown-linux-gnu"@,
        rows@[1].name@ == "ubuntu-nightly-aarch64"@,
        rows@[1].base_image@ == "ubuntu:24.04"@,
        rows@[1].toolchain_channel@ == "nightly"@,
        rows@[1].target@ == "aarch64-unknown-linux-gnu"@,
        rows@[2].name@ == "debian-beta-x86_64"@,
        rows@[2].base_image@ == "debian:bookworm"@,
        rows@[2].toolchain_channel@ == "beta"@,
        rows@[2].target@ == "x86_64-unknown-linux-gnu"@,
        forall|i: int| 0 <= i < rows@.len() ==> (#[trigger] rows@[i]).wf(),
{
    let mut rows: Vec<MatrixRow> = Vec::new();
    rows.push(
        MatrixRow {
            name: "ubuntu-stable-x86_64".to_owned(),
            base_image: "ubuntu:22.04".to_owned(),
            toolchain_channel: "stable".to_owned(),
            target: "x86_64-unknown-linux-gnu".to_owned(),
        },
    );
    rows.push(
        MatrixRow {
            name: "ubuntu-nightly-aarch64".to_owned(),
            base_image: "ubuntu:24.04".to_owned(),
            toolchain_channel: "nightly".to_owned(),
            target: "aarch64-unknown-linux-gnu".to_owned(),
        },
    );
    rows.push(
        MatrixRow {
            name: "debian-beta-x86_64".to_owned(),
            base_image: "debian:bookworm".to_owned(),
            toolchain_channel: "beta".to_owned(),
            target: "x86_64-unknown-linux-gnu".to_owned(),
        },
    );
    proof {
        reveal_strlit("ubuntu-stable-x86_64");
        reveal_strlit("ubuntu-nightly-aarch64");
        reveal_strlit("debian-beta-x86_64");
    }
    rows
}

} // verus!
