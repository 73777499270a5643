//! Reading fields of the package section of a Cargo manifest.

use vstd::prelude::*;
use std::path::Path;
use std::path::PathBuf;
use crate::outside::join_path;
use crate::outside::joined_path;
use crate::outside::parse_toml;
use crate::outside::toml_as_str;
use crate::outside::toml_document;
use crate::outside::toml_entry;
use crate::outside::toml_get;
use crate::outside::toml_text;

verus! {

/// The string under `field` in the package section of `doc`: nothing where
/// `doc` has no package section, where the section has no such field, or
/// where the field holds something other than a string.
pub open spec fn package_field(doc: toml::Value, field: Seq<char>) -> Option<Seq<char>> {
    match toml_entry(doc, "package"@) {
        Some(package) => match toml_entry(package, field) {
            Some(value) => toml_text(value),
            None => None,
        },
        None => None,
    }
}

/// The string under `field` in the package section of a manifest: nothing
/// where the manifest could not be read or is no TOML document, and
/// otherwise what the document holds.
pub open spec fn cargo_field(manifest: Option<Seq<char>>, field: Seq<char>) -> Option<Seq<char>> {
    match manifest {
        Some(text) => match toml_document(text) {
            Some(doc) => package_field(doc, field),
            None => None,
        },
        None => None,
    }
}

/// Where the license file lies: the `license-file` field of the manifest,
/// joined to the package's root directory.
pub open spec fn license_file_path(manifest_dir: &Path, manifest: Option<Seq<char>>) -> Option<
    PathBuf,
> {
    match cargo_field(manifest, "license-file"@) {
        Some(rel) => Some(joined_path(manifest_dir, rel)),
        None => None,
    }
}

/// Where the manifest of the package rooted at `manifest_dir` lies.
pub fn manifest_path(manifest_dir: &Path) -> (r: PathBuf)
    ensures
        r == joined_path(manifest_dir, "Cargo.toml"@),
{
    join_path(manifest_dir, "Cargo.toml")
}

/// Looks `field` up in the package section of a parsed manifest and
/// returns it if it is a string.
pub fn get_package_field(doc: &toml::Value, field: &str) -> (r: Option<String>)
    ensures
        r.deep_view() == package_field(*doc, field@),
{
    match toml_get(doc, "package") {
        Some(package) => match toml_get(package, field) {
            Some(value) => match toml_as_str(value) {
                Some(text) => Some(text.to_owned()),
                None => None,
            },
            None => None,
        },
        None => None,
    }
}

/// Looks `field` up in the package section of a manifest. `manifest` is the
/// text of the manifest file, or nothing where the file could not be read.
/// A manifest that is missing or does not parse has no fields.
pub fn get_cargo_field(manifest: Option<&str>, field: &str) -> (r: Option<String>)
    ensures
        r.deep_view() == cargo_field(manifest.deep_view(), field@),
{
    match manifest {
        Some(text) => match parse_toml(text) {
            Ok(doc) => get_package_field(&doc, field),
            Err(_) => None,
        },
        None => None,
    }
}

/// The path of the license file that the manifest names, joined to the
/// package's root directory. Whether a file lies there is not looked at.
pub fn get_license_file_path(manifest_dir: &Path, manifest: Option<&str>) -> (r: Option<PathBuf>)
    ensures
        r == license_file_path(manifest_dir, manifest.deep_view()),
{
    match get_cargo_field(manifest, "license-file") {
        Some(rel_path) => Some(join_path(manifest_dir, rel_path.as_str())),
        None => None,
    }
}

} // verus!
