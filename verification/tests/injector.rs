use cargo_pkg_info_struct_builder::build_output::BuildOutput;
use cargo_pkg_info_struct_builder::get_license_file_path;
use cargo_pkg_info_struct_builder::inject_build_metadata;
use cargo_pkg_info_struct_builder::injector::decide_write;
use cargo_pkg_info_struct_builder::cargo_pkg_info::CargoPkgInfo;
use cargo_pkg_info_struct_builder::template::generated_contents;
use cargo_pkg_info_struct_builder::template::GENERATED_SOURCE;
use cargo_pkg_info_struct_builder::BuildFacts;
use cargo_pkg_info_struct_builder::WriteDecision;
use std::path::Path;
use std::path::PathBuf;

/// The bindings that Cargo makes of the lines of a build script.
fn bindings(out: &BuildOutput) -> Vec<(String, String)> {
    let mut vars = Vec::new();
    for line in out.lines() {
        if let Some(binding) = line.strip_prefix("cargo:rustc-env=") {
            let (name, value) = binding.split_once('=').unwrap();
            vars.push((name.to_string(), value.to_string()));
        }
    }
    vars
}

#[test]
fn gather_falls_back_to_the_unknown_target() {
    let facts = BuildFacts::gather(None, 5, None, None);
    assert_eq!(facts.build_target(), "unknown-target");
    assert_eq!(facts.build_time_utc(), 5);
    assert_eq!(facts.license_path(), None);
    assert_eq!(facts.license_content(), None);

    let facts = BuildFacts::gather(Some("aarch64-apple-darwin".to_string()), 5, None, None);
    assert_eq!(facts.build_target(), "aarch64-apple-darwin");
}

#[test]
fn gather_drops_a_license_text_without_a_path() {
    let facts = BuildFacts::gather(None, 0, None, Some("text".to_string()));
    assert_eq!(facts.license_content(), None);

    let path = PathBuf::from("/work/LICENSE");
    let facts = BuildFacts::gather(None, 0, Some(path.clone()), Some("text".to_string()));
    assert_eq!(facts.license_path(), Some(&path));
    assert_eq!(facts.license_content(), Some("text"));

    let facts = BuildFacts::gather(None, 0, Some(path.clone()), None);
    assert_eq!(facts.license_path(), Some(&path));
    assert_eq!(facts.license_content(), None);
}

#[test]
fn decide_write_skips_only_identical_contents() {
    assert_eq!(decide_write(None, b"abc"), WriteDecision::Write);
    assert_eq!(decide_write(Some(b"abc"), b"abc"), WriteDecision::Skip);
    assert_eq!(decide_write(Some(b"abd"), b"abc"), WriteDecision::Write);
    assert_eq!(decide_write(Some(b"ab"), b"abc"), WriteDecision::Write);
    assert_eq!(decide_write(Some(b"abcd"), b"abc"), WriteDecision::Write);
    assert_eq!(decide_write(Some(b""), b""), WriteDecision::Skip);
    assert_eq!(decide_write(None, b""), WriteDecision::Write);
}

#[test]
fn injecting_twice_writes_once() {
    let facts = BuildFacts::gather(None, 0, None, None);
    for before in [None, Some(b"something else".to_vec()), Some(Vec::new())] {
        let mut dest: Option<Vec<u8>> = before;
        let mut out = BuildOutput::new();
        let first = inject_build_metadata(&mut out, &facts, dest.as_deref());
        assert_eq!(first, WriteDecision::Write);
        dest = Some(generated_contents().to_vec());

        let mut again = BuildOutput::new();
        let second = inject_build_metadata(&mut again, &facts, dest.as_deref());
        assert_eq!(second, WriteDecision::Skip);
        assert_eq!(dest.as_deref(), Some(generated_contents()));
        // the triggers and bindings are emitted both times
        assert_eq!(out.lines(), again.lines());
    }
}

#[test]
fn generated_contents_are_the_bytes_of_the_source() {
    assert_eq!(generated_contents(), GENERATED_SOURCE.as_bytes());
    assert!(GENERATED_SOURCE.contains("pub struct CargoPkgInfo"));
    assert!(GENERATED_SOURCE.contains("LICENSE_CONTENT"));
    assert!(GENERATED_SOURCE.contains("BUILD_TIME_UTC"));
    assert!(GENERATED_SOURCE.contains("BUILD_TARGET"));
}

#[test]
fn injected_lines_without_a_license() {
    let facts = BuildFacts::gather(None, 1_739_000_000, None, None);
    let mut out = BuildOutput::new();
    out.emit("cargo:rustc-env=EARLIER=1".to_string());
    inject_build_metadata(&mut out, &facts, None);
    assert_eq!(
        out.lines(),
        &vec![
            "cargo:rustc-env=EARLIER=1".to_string(),
            "cargo:rustc-env=BUILD_TARGET=unknown-target".to_string(),
            "cargo:rustc-env=BUILD_TIME_UTC=1739000000".to_string(),
            "cargo:rerun-if-changed=Cargo.toml".to_string(),
        ]
    );
}

#[test]
fn license_text_is_emitted_and_read_back() {
    let root = Path::new("/work/demo");
    let manifest = "[package]\nname = \"demo\"\nlicense-file = \"LICENSE\"\n";
    let license_path = get_license_file_path(root, Some(manifest));
    assert_eq!(license_path, Some(PathBuf::from("/work/demo/LICENSE")));
    let facts = BuildFacts::gather(
        Some("x86_64-unknown-linux-gnu".to_string()),
        12,
        license_path,
        Some("=== MOCK LICENSE ===\n\nOK\n".to_string()),
    );
    let mut out = BuildOutput::new();
    inject_build_metadata(&mut out, &facts, None);
    assert_eq!(
        out.lines(),
        &vec![
            "cargo:rustc-env=BUILD_TARGET=x86_64-unknown-linux-gnu".to_string(),
            "cargo:rustc-env=BUILD_TIME_UTC=12".to_string(),
            "cargo:rustc-env=LICENSE_CONTENT==== MOCK LICENSE ===\\n\\nOK\\n".to_string(),
            "cargo:rerun-if-changed=Cargo.toml".to_string(),
            "cargo:rerun-if-changed=/work/demo/LICENSE".to_string(),
        ]
    );

    let info = CargoPkgInfo::new(&bindings(&out));
    assert_eq!(
        info.license_content(),
        Some("=== MOCK LICENSE ===\n\nOK\n".to_string())
    );
    assert_eq!(info.build_target(), Some("x86_64-unknown-linux-gnu"));
    assert_eq!(info.build_time_utc(), Some(12));
}

#[test]
fn no_license_binding_without_the_manifest_key() {
    let root = Path::new("/work/demo");
    let manifest = "[package]\nname = \"demo\"\n";
    let license_path = get_license_file_path(root, Some(manifest));
    assert_eq!(license_path, None);
    // even if some text were at hand, it is not bound without a path
    let facts = BuildFacts::gather(None, 0, license_path, Some("stray".to_string()));
    let mut out = BuildOutput::new();
    inject_build_metadata(&mut out, &facts, None);
    assert!(out
        .lines()
        .iter()
        .all(|line| !line.contains("LICENSE_CONTENT")));
    assert!(out
        .lines()
        .iter()
        .all(|line| !line.contains("LICENSE")));

    let info = CargoPkgInfo::new(&bindings(&out));
    assert_eq!(info.license_content(), None);
}

#[test]
fn an_unreadable_license_file_is_still_a_trigger() {
    let facts = BuildFacts::gather(None, 0, Some(PathBuf::from("/work/LICENSE")), None);
    let mut out = BuildOutput::new();
    inject_build_metadata(&mut out, &facts, None);
    assert_eq!(
        out.lines(),
        &vec![
            "cargo:rustc-env=BUILD_TARGET=unknown-target".to_string(),
            "cargo:rustc-env=BUILD_TIME_UTC=0".to_string(),
            "cargo:rerun-if-changed=Cargo.toml".to_string(),
            "cargo:rerun-if-changed=/work/LICENSE".to_string(),
        ]
    );
}
