//! Read-only access to the metadata of a package, from the bindings that
//! were in force when it was compiled. A field that was not bound reads as
//! the fallback text, so that every getter has something to show.

use vstd::prelude::*;
use crate::bindings::binding;
use crate::bindings::borrowed_or_fallback;
use crate::bindings::lookup;
use crate::bindings::or_fallback;

verus! {

/// The fields of a package's metadata, as the contracts speak of them:
/// each is the text that was bound, or nothing where nothing was.
pub struct CargoPkgInfoView {
    pub app_name: Option<Seq<char>>,
    pub crate_name: Option<Seq<char>>,
    pub app_version: Option<Seq<char>>,
    pub version_major: Option<Seq<char>>,
    pub version_minor: Option<Seq<char>>,
    pub version_patch: Option<Seq<char>>,
    pub version_pre: Option<Seq<char>>,
    pub authors: Option<Seq<char>>,
    pub description: Option<Seq<char>>,
    pub homepage: Option<Seq<char>>,
    pub repository: Option<Seq<char>>,
    pub license: Option<Seq<char>>,
    pub license_content: Option<Seq<char>>,
    pub rust_version: Option<Seq<char>>,
    pub readme_path: Option<Seq<char>>,
    pub build_target: Option<Seq<char>>,
}

/// The fields that `vars` resolves to: each under the name that it is bound
/// to at compile time.
pub open spec fn resolved(vars: Seq<(Seq<char>, Seq<char>)>) -> CargoPkgInfoView {
    CargoPkgInfoView {
        app_name: binding(vars, "CARGO_PKG_NAME"@),
        crate_name: binding(vars, "CARGO_CRATE_NAME"@),
        app_version: binding(vars, "CARGO_PKG_VERSION"@),
        version_major: binding(vars, "CARGO_PKG_VERSION_MAJOR"@),
        version_minor: binding(vars, "CARGO_PKG_VERSION_MINOR"@),
        version_patch: binding(vars, "CARGO_PKG_VERSION_PATCH"@),
        version_pre: binding(vars, "CARGO_PKG_VERSION_PRE"@),
        authors: binding(vars, "CARGO_PKG_AUTHORS"@),
        description: binding(vars, "CARGO_PKG_DESCRIPTION"@),
        homepage: binding(vars, "CARGO_PKG_HOMEPAGE"@),
        repository: binding(vars, "CARGO_PKG_REPOSITORY"@),
        license: binding(vars, "CARGO_PKG_LICENSE"@),
        license_content: binding(vars, "CARGO_PKG_LICENSE_CONTENT"@),
        rust_version: binding(vars, "CARGO_PKG_RUST_VERSION"@),
        readme_path: binding(vars, "CARGO_PKG_README"@),
        build_target: binding(vars, "BUILD_TARGET"@),
    }
}

/// The metadata of a package: what was bound when the package was
/// compiled. Resolved once, read-only afterwards.
pub struct CargoPkgInfo {
    app_name: Option<String>,
    crate_name: Option<String>,
    app_version: Option<String>,
    version_major: Option<String>,
    version_minor: Option<String>,
    version_patch: Option<String>,
    version_pre: Option<String>,
    authors: Option<String>,
    description: Option<String>,
    homepage: Option<String>,
    repository: Option<String>,
    license: Option<String>,
    license_content: Option<String>,
    rust_version: Option<String>,
    readme_path: Option<String>,
    build_target: Option<String>,
}

impl View for CargoPkgInfo {
    type V = CargoPkgInfoView;

    closed spec fn view(&self) -> CargoPkgInfoView {
        CargoPkgInfoView {
            app_name: self.app_name.deep_view(),
            crate_name: self.crate_name.deep_view(),
            app_version: self.app_version.deep_view(),
            version_major: self.version_major.deep_view(),
            version_minor: self.version_minor.deep_view(),
            version_patch: self.version_patch.deep_view(),
            version_pre: self.version_pre.deep_view(),
            authors: self.authors.deep_view(),
            description: self.description.deep_view(),
            homepage: self.homepage.deep_view(),
            repository: self.repository.deep_view(),
            license: self.license.deep_view(),
            license_content: self.license_content.deep_view(),
            rust_version: self.rust_version.deep_view(),
            readme_path: self.readme_path.deep_view(),
            build_target: self.build_target.deep_view(),
        }
    }
}

impl CargoPkgInfo {
    /// Resolves the fields from the bindings `vars`, pairs of a name and a
    /// value: each field is what its name is first bound to, if anything.
    pub fn new(vars: &Vec<(String, String)>) -> (r: CargoPkgInfo)
        ensures
            r@ == resolved(vars.deep_view()),
    {
        CargoPkgInfo {
            app_name: lookup(vars, "CARGO_PKG_NAME"),
            crate_name: lookup(vars, "CARGO_CRATE_NAME"),
            app_version: lookup(vars, "CARGO_PKG_VERSION"),
            version_major: lookup(vars, "CARGO_PKG_VERSION_MAJOR"),
            version_minor: lookup(vars, "CARGO_PKG_VERSION_MINOR"),
            version_patch: lookup(vars, "CARGO_PKG_VERSION_PATCH"),
            version_pre: lookup(vars, "CARGO_PKG_VERSION_PRE"),
            authors: lookup(vars, "CARGO_PKG_AUTHORS"),
            description: lookup(vars, "CARGO_PKG_DESCRIPTION"),
            homepage: lookup(vars, "CARGO_PKG_HOMEPAGE"),
            repository: lookup(vars, "CARGO_PKG_REPOSITORY"),
            license: lookup(vars, "CARGO_PKG_LICENSE"),
            license_content: lookup(vars, "CARGO_PKG_LICENSE_CONTENT"),
            rust_version: lookup(vars, "CARGO_PKG_RUST_VERSION"),
            readme_path: lookup(vars, "CARGO_PKG_README"),
            build_target: lookup(vars, "BUILD_TARGET"),
        }
    }

    /// The name of the package. The fallback where it was not bound.
    pub fn app_name(&self) -> (r: &str)
        ensures
            r@ == or_fallback(self@.app_name),
    {
        borrowed_or_fallback(&self.app_name)
    }

    /// The name of the crate. The fallback where it was not bound.
    pub fn crate_name(&self) -> (r: &str)
        ensures
            r@ == or_fallback(self@.crate_name),
    {
        borrowed_or_fallback(&self.crate_name)
    }

    /// The full version of the package. The fallback where it was not bound.
    pub fn app_version(&self) -> (r: &str)
        ensures
            r@ == or_fallback(self@.app_version),
    {
        borrowed_or_fallback(&self.app_version)
    }

    /// The major version of the package. The fallback where it was not bound.
    pub fn version_major(&self) -> (r: &str)
        ensures
            r@ == or_fallback(self@.version_major),
    {
        borrowed_or_fallback(&self.version_major)
    }

    /// The minor version of the package. The fallback where it was not bound.
    pub fn version_minor(&self) -> (r: &str)
        ensures
            r@ == or_fallback(self@.version_minor),
    {
        borrowed_or_fallback(&self.version_minor)
    }

    /// The patch version of the package. The fallback where it was not bound.
    pub fn version_patch(&self) -> (r: &str)
        ensures
            r@ == or_fallback(self@.version_patch),
    {
        borrowed_or_fallback(&self.version_patch)
    }

    /// The pre-release version of the package. The fallback where it was not bound.
    pub fn version_pre(&self) -> (r: &str)
        ensures
            r@ == or_fallback(self@.version_pre),
    {
        borrowed_or_fallback(&self.version_pre)
    }

    /// The authors of the package, separated by colons. The fallback where it was not bound.
    pub fn authors(&self) -> (r: &str)
        ensures
            r@ == or_fallback(self@.authors),
    {
        borrowed_or_fallback(&self.authors)
    }

    /// The description of the package. The fallback where it was not bound.
    pub fn description(&self) -> (r: &str)
        ensures
            r@ == or_fallback(self@.description),
    {
        borrowed_or_fallback(&self.description)
    }

    /// The homepage of the package. The fallback where it was not bound.
    pub fn homepage(&self) -> (r: &str)
        ensures
            r@ == or_fallback(self@.homepage),
    {
        borrowed_or_fallback(&self.homepage)
    }

    /// The repository of the package. The fallback where it was not bound.
    pub fn repository(&self) -> (r: &str)
        ensures
            r@ == or_fallback(self@.repository),
    {
        borrowed_or_fallback(&self.repository)
    }

    /// The license of the package. The fallback where it was not bound.
    pub fn license(&self) -> (r: &str)
        ensures
            r@ == or_fallback(self@.license),
    {
        borrowed_or_fallback(&self.license)
    }

    /// The text of the license file, as it was bound. The fallback where it was not bound.
    pub fn license_content(&self) -> (r: &str)
        ensures
            r@ == or_fallback(self@.license_content),
    {
        borrowed_or_fallback(&self.license_content)
    }

    /// The Rust version that the package asks for. The fallback where it was not bound.
    pub fn rust_version(&self) -> (r: &str)
        ensures
            r@ == or_fallback(self@.rust_version),
    {
        borrowed_or_fallback(&self.rust_version)
    }

    /// The path of the package's readme. The fallback where it was not bound.
    pub fn readme_path(&self) -> (r: &str)
        ensures
            r@ == or_fallback(self@.readme_path),
    {
        borrowed_or_fallback(&self.readme_path)
    }

    /// The target that the package was built for. The fallback where it was not bound.
    pub fn build_target(&self) -> (r: &str)
        ensures
            r@ == or_fallback(self@.build_target),
    {
        borrowed_or_fallback(&self.build_target)
    }
}

/// The build time as text: what formatting it gave, or the fallback where
/// there was no build time to format.
pub fn build_time_text(formatted: Option<String>) -> (r: String)
    ensures
        r@ == or_fallback(formatted.deep_view()),
{
    match formatted {
        Some(text) => text,
        None => "N/A".to_owned(),
    }
}

} // verus!
