use cargo_pkg_info_struct_builder::build_output::BuildOutput;
use cargo_pkg_info_struct_builder::injector::inject_build_metadata;
use cargo_pkg_info_struct_builder::injector::BuildFacts;
use cargo_pkg_info_struct_builder::injector::WriteDecision;
use cargo_pkg_info_struct_builder::template::generated_contents;

#[test]
fn inject_metadata_test_inject_build_metadata() {
    // Nothing lies at the destination yet
    let mut dest: Option<Vec<u8>> = None;

    // Run metadata injection
    let facts = BuildFacts::gather(None, 0, None, None);
    let mut out = BuildOutput::new();
    if inject_build_metadata(&mut out, &facts, dest.as_deref()) == WriteDecision::Write {
        dest = Some(generated_contents().to_vec());
    }

    // Ensure the file is created
    assert!(dest.is_some(), "cargo_pkg_info.rs should be created");

    // Read and check contents
    let contents = String::from_utf8(dest.unwrap()).unwrap();
    assert!(
        contents.contains("pub struct CargoPkgInfo"),
        "Struct definition missing"
    );
    assert!(
        contents.contains("CARGO_PKG_NAME"),
        "Package name metadata missing"
    );
}
