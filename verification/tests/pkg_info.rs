use cargo_pkg_info_struct_builder::pkg_info::build_time_text;
use cargo_pkg_info_struct_builder::CargoPkgInfo;

fn vars(pairs: &[(&str, &str)]) -> Vec<(String, String)> {
    pairs
        .iter()
        .map(|(name, value)| (name.to_string(), value.to_string()))
        .collect()
}

#[test]
fn every_unbound_field_reads_as_the_fallback() {
    let info = CargoPkgInfo::new(&Vec::new());
    assert_eq!(info.app_name(), "N/A");
    assert_eq!(info.crate_name(), "N/A");
    assert_eq!(info.app_version(), "N/A");
    assert_eq!(info.version_major(), "N/A");
    assert_eq!(info.version_minor(), "N/A");
    assert_eq!(info.version_patch(), "N/A");
    assert_eq!(info.version_pre(), "N/A");
    assert_eq!(info.authors(), "N/A");
    assert_eq!(info.description(), "N/A");
    assert_eq!(info.homepage(), "N/A");
    assert_eq!(info.repository(), "N/A");
    assert_eq!(info.license(), "N/A");
    assert_eq!(info.license_content(), "N/A");
    assert_eq!(info.rust_version(), "N/A");
    assert_eq!(info.readme_path(), "N/A");
    assert_eq!(info.build_target(), "N/A");
}

#[test]
fn a_missing_target_falls_back_beside_a_bound_name() {
    let info = CargoPkgInfo::new(&vars(&[("CARGO_PKG_NAME", "example-app")]));
    assert_eq!(info.app_name(), "example-app");
    assert_eq!(info.build_target(), "N/A");
    assert_eq!(info.crate_name(), "N/A");
}

#[test]
fn each_getter_reads_its_own_binding() {
    let info = CargoPkgInfo::new(&vars(&[
        ("CARGO_PKG_NAME", "name"),
        ("CARGO_CRATE_NAME", "crate"),
        ("CARGO_PKG_VERSION", "version"),
        ("CARGO_PKG_VERSION_MAJOR", "major"),
        ("CARGO_PKG_VERSION_MINOR", "minor"),
        ("CARGO_PKG_VERSION_PATCH", "patch"),
        ("CARGO_PKG_VERSION_PRE", "pre"),
        ("CARGO_PKG_AUTHORS", "authors"),
        ("CARGO_PKG_DESCRIPTION", "description"),
        ("CARGO_PKG_HOMEPAGE", "homepage"),
        ("CARGO_PKG_REPOSITORY", "repository"),
        ("CARGO_PKG_LICENSE", "license"),
        ("CARGO_PKG_LICENSE_CONTENT", "content"),
        ("CARGO_PKG_RUST_VERSION", "rust"),
        ("CARGO_PKG_README", "readme"),
        ("BUILD_TARGET", "target"),
    ]));
    assert_eq!(info.app_name(), "name");
    assert_eq!(info.crate_name(), "crate");
    assert_eq!(info.app_version(), "version");
    assert_eq!(info.version_major(), "major");
    assert_eq!(info.version_minor(), "minor");
    assert_eq!(info.version_patch(), "patch");
    assert_eq!(info.version_pre(), "pre");
    assert_eq!(info.authors(), "authors");
    assert_eq!(info.description(), "description");
    assert_eq!(info.homepage(), "homepage");
    assert_eq!(info.repository(), "repository");
    assert_eq!(info.license(), "license");
    assert_eq!(info.license_content(), "content");
    assert_eq!(info.rust_version(), "rust");
    assert_eq!(info.readme_path(), "readme");
    assert_eq!(info.build_target(), "target");
}

#[test]
fn a_field_bound_to_the_empty_text_is_not_missing() {
    let info = CargoPkgInfo::new(&vars(&[("CARGO_PKG_VERSION_PRE", "")]));
    assert_eq!(info.version_pre(), "");
    assert_eq!(info.version_major(), "N/A");
}

#[test]
fn build_time_text_falls_back_without_a_build_time() {
    assert_eq!(build_time_text(None), "N/A");
    assert_eq!(
        build_time_text(Some("2025-02-08 10:00:00".to_string())),
        "2025-02-08 10:00:00"
    );
    assert_eq!(build_time_text(Some(String::new())), "");
}
