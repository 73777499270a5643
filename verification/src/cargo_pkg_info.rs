//! Read-only access to the metadata of a package, from the bindings that
//! were in force when it was compiled. A field that was not bound is not
//! present; numbers are read as numbers and multi-line values get their
//! line feeds back.

use vstd::prelude::*;
use crate::bindings::binding;
use crate::bindings::borrowed;
use crate::bindings::lookup;
use crate::decimal::parse_decimal;
use crate::decimal::parsed_decimal;
use crate::text::lines_of;
use crate::text::split_lines;
use crate::text::unescape_newlines;
use crate::text::unescaped;

verus! {

/// The number that `field` reads as, where numbers up to `max` can be held;
/// nothing where there is no field or it is no such number.
pub open spec fn numeric(field: Option<Seq<char>>, max: nat) -> Option<nat> {
    match field {
        Some(text) => parsed_decimal(text, max),
        None => None,
    }
}

/// The lines of an escaped multi-line value, or nothing where there is no
/// value.
pub open spec fn multi_line(env_data: Option<Seq<char>>) -> Option<Seq<Seq<char>>> {
    match env_data {
        Some(data) => Some(lines_of(unescaped(data))),
        None => None,
    }
}

/// The text of a multi-line field with its line feeds restored, or nothing
/// where there is no field.
pub open spec fn restored(field: Option<Seq<char>>) -> Option<Seq<char>> {
    match field {
        Some(raw) => Some(unescaped(raw)),
        None => None,
    }
}

/// The fields of a package's metadata, as the contracts speak of them:
/// each is the text that was bound, or nothing where nothing was.
pub struct CargoPkgInfoView {
    pub pkg_name: Option<Seq<char>>,
    pub crate_name: Option<Seq<char>>,
    pub pkg_version: Option<Seq<char>>,
    pub version_major: Option<Seq<char>>,
    pub version_minor: Option<Seq<char>>,
    pub version_patch: Option<Seq<char>>,
    pub version_pre: Option<Seq<char>>,
    pub authors: Option<Seq<char>>,
    pub description: Option<Seq<char>>,
    pub homepage: Option<Seq<char>>,
    pub repository: Option<Seq<char>>,
    pub license: Option<Seq<char>>,
    pub license_content: Option<Seq<char>>,
    pub rust_version: Option<Seq<char>>,
    pub readme_path: Option<Seq<char>>,
    pub build_target: Option<Seq<char>>,
    pub build_time_utc: Option<Seq<char>>,
}

/// The fields that `vars` resolves to: each under the name that Cargo, or
/// the metadata injector, binds it to.
pub open spec fn resolved(vars: Seq<(Seq<char>, Seq<char>)>) -> CargoPkgInfoView {
    CargoPkgInfoView {
        pkg_name: binding(vars, "CARGO_PKG_NAME"@),
        crate_name: binding(vars, "CARGO_CRATE_NAME"@),
        pkg_version: binding(vars, "CARGO_PKG_VERSION"@),
        version_major: binding(vars, "CARGO_PKG_VERSION_MAJOR"@),
        version_minor: binding(vars, "CARGO_PKG_VERSION_MINOR"@),
        version_patch: binding(vars, "CARGO_PKG_VERSION_PATCH"@),
        version_pre: binding(vars, "CARGO_PKG_VERSION_PRE"@),
        authors: binding(vars, "CARGO_PKG_AUTHORS"@),
        description: binding(vars, "CARGO_PKG_DESCRIPTION"@),
        homepage: binding(vars, "CARGO_PKG_HOMEPAGE"@),
        repository: binding(vars, "CARGO_PKG_REPOSITORY"@),
        license: binding(vars, "CARGO_PKG_LICENSE"@),
        license_content: binding(vars, "LICENSE_CONTENT"@),
        rust_version: binding(vars, "CARGO_PKG_RUST_VERSION"@),
        readme_path: binding(vars, "CARGO_PKG_README"@),
        build_target: binding(vars, "BUILD_TARGET"@),
        build_time_utc: binding(vars, "BUILD_TIME_UTC"@),
    }
}

/// The metadata of a package: what Cargo and the metadata injector bound
/// when the package was compiled. Resolved once, read-only afterwards.
pub struct CargoPkgInfo {
    pkg_name: Option<String>,
    crate_name: Option<String>,
    pkg_version: Option<String>,
    version_major: Option<String>,
    version_minor: Option<String>,
    version_patch: Option<String>,
    version_pre: Option<String>,
    authors: Option<String>,
    description: Option<String>,
    homepage: Option<String>,
    repository: Option<String>,
    license: Option<String>,
    license_content: Option<String>,
    rust_version: Option<String>,
    readme_path: Option<String>,
    build_target: Option<String>,
    build_time_utc: Option<String>,
}

impl View for CargoPkgInfo {
    type V = CargoPkgInfoView;

    closed spec fn view(&self) -> CargoPkgInfoView {
        CargoPkgInfoView {
            pkg_name: self.pkg_name.deep_view(),
            crate_name: self.crate_name.deep_view(),
            pkg_version: self.pkg_version.deep_view(),
            version_major: self.version_major.deep_view(),
            version_minor: self.version_minor.deep_view(),
            version_patch: self.version_patch.deep_view(),
            version_pre: self.version_pre.deep_view(),
            authors: self.authors.deep_view(),
            description: self.description.deep_view(),
            homepage: self.homepage.deep_view(),
            repository: self.repository.deep_view(),
            license: self.license.deep_view(),
            license_content: self.license_content.deep_view(),
            rust_version: self.rust_version.deep_view(),
            readme_path: self.readme_path.deep_view(),
            build_target: self.build_target.deep_view(),
            build_time_utc: self.build_time_utc.deep_view(),
        }
    }
}

/// A field read as a number of at most `max`.
fn read_number(field: &Option<String>, max: u64) -> (r: Option<u64>)
    ensures
        r is Some <==> numeric(field.deep_view(), max as nat) is Some,
        r is Some ==> r->Some_0 == numeric(field.deep_view(), max as nat)->Some_0,
{
    match field {
        Some(text) => parse_decimal(text.as_str(), max),
        None => None,
    }
}

/// A field read as a 32-bit number.
fn read_u32(field: &Option<String>) -> (r: Option<u32>)
    ensures
        r is Some <==> numeric(field.deep_view(), u32::MAX as nat) is Some,
        r is Some ==> r->Some_0 == numeric(field.deep_view(), u32::MAX as nat)->Some_0,
{
    match read_number(field, 0xffff_ffff) {
        Some(n) => Some(n as u32),
        None => None,
    }
}

impl CargoPkgInfo {
    /// Resolves the fields from the bindings `vars`, pairs of a name and a
    /// value: each field is what its name is first bound to, if anything.
    pub fn new(vars: &Vec<(String, String)>) -> (r: CargoPkgInfo)
        ensures
            r@ == resolved(vars.deep_view()),
    {
        CargoPkgInfo {
            pkg_name: lookup(vars, "CARGO_PKG_NAME"),
            crate_name: lookup(vars, "CARGO_CRATE_NAME"),
            pkg_version: lookup(vars, "CARGO_PKG_VERSION"),
            version_major: lookup(vars, "CARGO_PKG_VERSION_MAJOR"),
            version_minor: lookup(vars, "CARGO_PKG_VERSION_MINOR"),
            version_patch: lookup(vars, "CARGO_PKG_VERSION_PATCH"),
            version_pre: lookup(vars, "CARGO_PKG_VERSION_PRE"),
            authors: lookup(vars, "CARGO_PKG_AUTHORS"),
            description: lookup(vars, "CARGO_PKG_DESCRIPTION"),
            homepage: lookup(vars, "CARGO_PKG_HOMEPAGE"),
            repository: lookup(vars, "CARGO_PKG_REPOSITORY"),
            license: lookup(vars, "CARGO_PKG_LICENSE"),
            license_content: lookup(vars, "LICENSE_CONTENT"),
            rust_version: lookup(vars, "CARGO_PKG_RUST_VERSION"),
            readme_path: lookup(vars, "CARGO_PKG_README"),
            build_target: lookup(vars, "BUILD_TARGET"),
            build_time_utc: lookup(vars, "BUILD_TIME_UTC"),
        }
    }

    /// The name of the package.
    pub fn pkg_name(&self) -> (r: Option<&str>)
        ensures
            r.deep_view() == self@.pkg_name,
    {
        borrowed(&self.pkg_name)
    }

    /// The name of the crate.
    pub fn crate_name(&self) -> (r: Option<&str>)
        ensures
            r.deep_view() == self@.crate_name,
    {
        borrowed(&self.crate_name)
    }

    /// The full version of the package.
    pub fn pkg_version(&self) -> (r: Option<&str>)
        ensures
            r.deep_view() == self@.pkg_version,
    {
        borrowed(&self.pkg_version)
    }

    /// The major version of the package, as text.
    pub fn version_major(&self) -> (r: Option<&str>)
        ensures
            r.deep_view() == self@.version_major,
    {
        borrowed(&self.version_major)
    }

    /// The major version of the package as a number: nothing where it is
    /// not bound or is not a number that fits 32 bits.
    pub fn version_major_numeric(&self) -> (r: Option<u32>)
        ensures
            r is Some <==> numeric(self@.version_major, u32::MAX as nat) is Some,
            r is Some ==> r->Some_0 == numeric(self@.version_major, u32::MAX as nat)->Some_0,
    {
        read_u32(&self.version_major)
    }

    /// The minor version of the package, as text.
    pub fn version_minor(&self) -> (r: Option<&str>)
        ensures
            r.deep_view() == self@.version_minor,
    {
        borrowed(&self.version_minor)
    }

    /// The minor version of the package as a number: nothing where it is
    /// not bound or is not a number that fits 32 bits.
    pub fn version_minor_numeric(&self) -> (r: Option<u32>)
        ensures
            r is Some <==> numeric(self@.version_minor, u32::MAX as nat) is Some,
            r is Some ==> r->Some_0 == numeric(self@.version_minor, u32::MAX as nat)->Some_0,
    {
        read_u32(&self.version_minor)
    }

    /// The patch version of the package, as text.
    pub fn version_patch(&self) -> (r: Option<&str>)
        ensures
            r.deep_view() == self@.version_patch,
    {
        borrowed(&self.version_patch)
    }

    /// The patch version of the package as a number: nothing where it is
    /// not bound or is not a number that fits 32 bits.
    pub fn version_patch_numeric(&self) -> (r: Option<u32>)
        ensures
            r is Some <==> numeric(self@.version_patch, u32::MAX as nat) is Some,
            r is Some ==> r->Some_0 == numeric(self@.version_patch, u32::MAX as nat)->Some_0,
    {
        read_u32(&self.version_patch)
    }

    /// The pre-release version of the package.
    pub fn version_pre(&self) -> (r: Option<&str>)
        ensures
            r.deep_view() == self@.version_pre,
    {
        borrowed(&self.version_pre)
    }

    /// The authors of the package, separated by colons.
    pub fn authors(&self) -> (r: Option<&str>)
        ensures
            r.deep_view() == self@.authors,
    {
        borrowed(&self.authors)
    }

    /// The description of the package.
    pub fn description(&self) -> (r: Option<&str>)
        ensures
            r.deep_view() == self@.description,
    {
        borrowed(&self.description)
    }

    /// The homepage of the package.
    pub fn homepage(&self) -> (r: Option<&str>)
        ensures
            r.deep_view() == self@.homepage,
    {
        borrowed(&self.homepage)
    }

    /// The repository of the package.
    pub fn repository(&self) -> (r: Option<&str>)
        ensures
            r.deep_view() == self@.repository,
    {
        borrowed(&self.repository)
    }

    /// The license of the package.
    pub fn license(&self) -> (r: Option<&str>)
        ensures
            r.deep_view() == self@.license,
    {
        borrowed(&self.license)
    }

    /// The Rust version that the package asks for.
    pub fn rust_version(&self) -> (r: Option<&str>)
        ensures
            r.deep_view() == self@.rust_version,
    {
        borrowed(&self.rust_version)
    }

    /// The path of the package's readme.
    pub fn readme_path(&self) -> (r: Option<&str>)
        ensures
            r.deep_view() == self@.readme_path,
    {
        borrowed(&self.readme_path)
    }

    /// The target that the package was built for.
    pub fn build_target(&self) -> (r: Option<&str>)
        ensures
            r.deep_view() == self@.build_target,
    {
        borrowed(&self.build_target)
    }

    /// The text of the license file, with its line feeds restored.
    pub fn license_content(&self) -> (r: Option<String>)
        ensures
            r.deep_view() == restored(self@.license_content),
    {
        match &self.license_content {
            Some(raw) => Some(unescape_newlines(raw.as_str())),
            None => None,
        }
    }

    /// The time of the build in seconds since the epoch: nothing where it
    /// is not bound or is not a number that fits 64 bits.
    pub fn build_time_utc(&self) -> (r: Option<u64>)
        ensures
            r is Some <==> numeric(self@.build_time_utc, u64::MAX as nat) is Some,
            r is Some ==> r->Some_0 == numeric(self@.build_time_utc, u64::MAX as nat)->Some_0,
    {
        read_number(&self.build_time_utc, 0xffff_ffff_ffff_ffff)
    }

    /// Splits the escaped value of a multi-line binding into its lines:
    /// the markers become line feeds again, and the text is cut at them.
    /// Nothing comes back where there is no value.
    pub fn split_multi_line_custom_var(env_data: Option<&str>) -> (r: Option<Vec<String>>)
        ensures
            r.deep_view() == multi_line(env_data.deep_view()),
    {
        match env_data {
            Some(data) => {
                let unescaped_data = unescape_newlines(data);
                Some(split_lines(unescaped_data.as_str()))
            },
            None => None,
        }
    }
}

} // verus!
