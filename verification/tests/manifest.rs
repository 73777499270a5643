use cargo_pkg_info_struct_builder::get_cargo_field;
use cargo_pkg_info_struct_builder::get_license_file_path;
use cargo_pkg_info_struct_builder::manifest::get_package_field;
use cargo_pkg_info_struct_builder::manifest::manifest_path;
use std::path::Path;
use std::path::PathBuf;

const MANIFEST: &str = r#"
name = "not the package name"

[package]
name = "demo"
version = "1.2.3"
license-file = "LICENSE"
edition = 2021
keywords = ["a", "b"]

[dependencies]
other = "1"
"#;

#[test]
fn get_cargo_field_reads_strings_of_the_package_section() {
    assert_eq!(
        get_cargo_field(Some(MANIFEST), "name"),
        Some("demo".to_string())
    );
    assert_eq!(
        get_cargo_field(Some(MANIFEST), "version"),
        Some("1.2.3".to_string())
    );
    assert_eq!(
        get_cargo_field(Some(MANIFEST), "license-file"),
        Some("LICENSE".to_string())
    );
}

#[test]
fn get_cargo_field_finds_nothing_where_there_is_nothing() {
    // the key is absent
    assert_eq!(get_cargo_field(Some(MANIFEST), "homepage"), None);
    // the value is no string
    assert_eq!(get_cargo_field(Some(MANIFEST), "edition"), None);
    assert_eq!(get_cargo_field(Some(MANIFEST), "keywords"), None);
    // the key belongs to another section
    assert_eq!(get_cargo_field(Some(MANIFEST), "other"), None);
    // there is no package section
    assert_eq!(get_cargo_field(Some("name = \"demo\""), "name"), None);
    assert_eq!(get_cargo_field(Some("package = \"demo\""), "name"), None);
    assert_eq!(get_cargo_field(Some(""), "name"), None);
    // the manifest does not parse
    assert_eq!(get_cargo_field(Some("[package\nname = "), "name"), None);
    // the manifest could not be read
    assert_eq!(get_cargo_field(None, "name"), None);
}

#[test]
fn get_package_field_works_on_a_parsed_document() {
    let mut package = toml::Table::new();
    package.insert("name".to_string(), toml::Value::String("demo".to_string()));
    package.insert("edition".to_string(), toml::Value::Integer(2021));
    let mut doc = toml::Table::new();
    doc.insert("package".to_string(), toml::Value::Table(package));
    let doc = toml::Value::Table(doc);

    assert_eq!(get_package_field(&doc, "name"), Some("demo".to_string()));
    assert_eq!(get_package_field(&doc, "edition"), None);
    assert_eq!(get_package_field(&doc, "version"), None);
    assert_eq!(
        get_package_field(&toml::Value::String("package".to_string()), "name"),
        None
    );
    assert_eq!(
        get_package_field(&toml::Value::Array(vec![doc.clone()]), "name"),
        None
    );
}

#[test]
fn get_license_file_path_joins_the_field_to_the_root() {
    let root = Path::new("/work/demo");
    assert_eq!(
        get_license_file_path(root, Some(MANIFEST)),
        Some(PathBuf::from("/work/demo/LICENSE"))
    );
    assert_eq!(
        get_license_file_path(
            root,
            Some("[package]\nlicense-file = \"docs/LICENSE.txt\"")
        ),
        Some(root.join("docs/LICENSE.txt"))
    );
}

#[test]
fn get_license_file_path_without_the_field() {
    let root = Path::new("/work/demo");
    assert_eq!(
        get_license_file_path(root, Some("[package]\nname = \"demo\"")),
        None
    );
    assert_eq!(
        get_license_file_path(root, Some("[package]\nlicense-file = 3")),
        None
    );
    assert_eq!(get_license_file_path(root, Some("not toml at all [")), None);
    assert_eq!(get_license_file_path(root, None), None);
}

#[test]
fn manifest_path_lies_in_the_root() {
    assert_eq!(
        manifest_path(Path::new("/work/demo")),
        PathBuf::from("/work/demo/Cargo.toml")
    );
}
