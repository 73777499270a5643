//! The metadata injector: from the facts of one build to the lines to print
//! and the decision whether the generated file has to be written.

use vstd::prelude::*;
use vstd::string::StringSliceAdditionalSpecFns;
use std::path::PathBuf;
use crate::build_output::rerun_directive;
use crate::build_output::set_cargo_env_var;
use crate::build_output::BuildOutput;
use crate::decimal::decimal;
use crate::decimal::u64_to_decimal;
use crate::env_var::accepted_name;
use crate::env_var::env_directive;
use crate::env_var::is_name_char;
use crate::env_var::reserved_prefix;
use crate::outside::display_path;
use crate::outside::displayed_path;
use crate::template::generated_contents;
use crate::template::GENERATED_SOURCE;

verus! {

/// What one build is known by, as the contracts speak of it.
pub struct BuildFactsView {
    pub build_target: Seq<char>,
    pub build_time_utc: nat,
    pub license_path: Option<PathBuf>,
    pub license_content: Option<Seq<char>>,
}

/// What one build is known by: the target that is built for, the time of
/// the build in seconds since the epoch, the path of the license file where
/// the manifest names one, and its text where it could be read. Gathered
/// once, read-only afterwards.
pub struct BuildFacts {
    build_target: String,
    build_time_utc: u64,
    license_path: Option<PathBuf>,
    license_content: Option<String>,
}

impl View for BuildFacts {
    type V = BuildFactsView;

    closed spec fn view(&self) -> BuildFactsView {
        BuildFactsView {
            build_target: self.build_target@,
            build_time_utc: self.build_time_utc as nat,
            license_path: self.license_path,
            license_content: self.license_content.deep_view(),
        }
    }
}

/// The target that stands in where the build environment names none.
pub open spec fn unknown_target() -> Seq<char> {
    "unknown-target"@
}

/// The facts that `gather` makes of what was read.
pub open spec fn gathered(
    target: Option<Seq<char>>,
    now_secs: nat,
    license_path: Option<PathBuf>,
    license_text: Option<Seq<char>>,
) -> BuildFactsView {
    BuildFactsView {
        build_target: match target {
            Some(t) => t,
            None => unknown_target(),
        },
        build_time_utc: now_secs,
        license_path: license_path,
        license_content: if license_path is Some {
            license_text
        } else {
            None
        },
    }
}

impl BuildFacts {
    #[verifier::type_invariant]
    spec fn well_formed(self) -> bool {
        self.license_content is Some ==> self.license_path is Some
    }

    /// Gathers the facts of a build from what the build script read: the
    /// target from its environment, if set; the clock; the path of the
    /// license file, if the manifest names one; and the text of that file,
    /// if it could be read. A missing target becomes `unknown-target`. A
    /// license text without a license path is dropped.
    pub fn gather(
        target: Option<String>,
        now_secs: u64,
        license_path: Option<PathBuf>,
        license_text: Option<String>,
    ) -> (r: BuildFacts)
        ensures
            r@ == gathered(target.deep_view(), now_secs as nat, license_path, license_text.deep_view()),
    {
        let build_target = match target {
            Some(t) => t,
            None => "unknown-target".to_owned(),
        };
        let license_content = if license_path.is_some() {
            license_text
        } else {
            None
        };
        BuildFacts { build_target, build_time_utc: now_secs, license_path, license_content }
    }

    /// The target that is built for.
    pub fn build_target(&self) -> (r: &str)
        ensures
            r@ == self@.build_target,
    {
        self.build_target.as_str()
    }

    /// The time of the build, in seconds since the epoch.
    pub fn build_time_utc(&self) -> (r: u64)
        ensures
            r == self@.build_time_utc,
    {
        self.build_time_utc
    }

    /// The path of the license file, where the manifest names one.
    pub fn license_path(&self) -> (r: Option<&PathBuf>)
        ensures
            r is Some <==> self@.license_path is Some,
            r is Some ==> *r->Some_0 == self@.license_path->Some_0,
    {
        self.license_path.as_ref()
    }

    /// The text of the license file, where it could be read. There is none
    /// without a license path.
    pub fn license_content(&self) -> (r: Option<&str>)
        ensures
            r is Some <==> self@.license_content is Some,
            r is Some ==> r->Some_0@ == self@.license_content->Some_0,
            r is Some ==> self@.license_path is Some,
    {
        proof {
            use_type_invariant(self);
        }
        match &self.license_content {
            Some(text) => Some(text.as_str()),
            None => None,
        }
    }
}

/// What is to be done about the generated file.
#[derive(Debug, Clone, Copy, PartialEq, Eq, Structural)]
pub enum WriteDecision {
    /// The destination already holds the contents: it is left untouched.
    Skip,
    /// The destination is missing, unreadable or holds something else: the
    /// contents are written.
    Write,
}

/// The decision for a destination that holds `existing` (nothing where it
/// could not be read) and contents `contents` to put there: skip exactly
/// where the two are the same, byte for byte.
pub open spec fn write_decision(existing: Option<Seq<u8>>, contents: Seq<u8>) -> WriteDecision {
    if existing == Some(contents) {
        WriteDecision::Skip
    } else {
        WriteDecision::Write
    }
}

/// What the destination holds once the decision has been carried out.
pub open spec fn destination_after(existing: Option<Seq<u8>>, contents: Seq<u8>) -> Seq<u8> {
    match write_decision(existing, contents) {
        WriteDecision::Skip => existing->Some_0,
        WriteDecision::Write => contents,
    }
}

/// What was read at the destination, as the contracts speak of it.
pub open spec fn existing_view(existing: Option<&[u8]>) -> Option<Seq<u8>> {
    match existing {
        Some(bytes) => Some(bytes@),
        None => None,
    }
}

/// The lines that the injector emits for a build, in order: the bindings
/// of the target and of the build time, the binding of the license text
/// where there is one, the rebuild trigger for the manifest, and the one
/// for the license file where the manifest names one.
pub open spec fn injected_directives(facts: BuildFactsView) -> Seq<Seq<char>> {
    seq![
        env_directive("BUILD_TARGET"@, facts.build_target),
        env_directive("BUILD_TIME_UTC"@, decimal(facts.build_time_utc)),
    ] + (match facts.license_content {
        Some(text) => seq![env_directive("LICENSE_CONTENT"@, text)],
        None => Seq::empty(),
    }) + seq![rerun_directive("Cargo.toml"@)] + (match facts.license_path {
        Some(path) => seq![rerun_directive(displayed_path(path))],
        None => Seq::empty(),
    })
}

/// Whether two byte strings are the same.
fn same_bytes(a: &[u8], b: &[u8]) -> (r: bool)
    ensures
        r == (a@ == b@),
{
    if a.len() != b.len() {
        return false;
    }
    let mut i: usize = 0;
    while i < a.len()
        invariant
            i <= a.len(),
            a.len() == b.len(),
            forall|j: int| 0 <= j < i ==> a@[j] == b@[j],
        decreases a.len() - i,
    {
        if a[i] != b[i] {
            return false;
        }
        i += 1;
    }
    assert(a@ =~= b@);
    true
}

/// Decides whether `contents` have to be written to a destination that
/// holds `existing`, or nothing that could be read: only where it holds
/// anything else than `contents`.
pub fn decide_write(existing: Option<&[u8]>, contents: &[u8]) -> (r: WriteDecision)
    ensures
        r == write_decision(existing_view(existing), contents@),
{
    match existing {
        Some(bytes) => if same_bytes(bytes, contents) {
            WriteDecision::Skip
        } else {
            WriteDecision::Write
        },
        None => WriteDecision::Write,
    }
}

/// The three names that the injector binds can be bound.
proof fn lemma_injected_names()
    ensures
        accepted_name("BUILD_TARGET"@),
        accepted_name("BUILD_TIME_UTC"@),
        accepted_name("LICENSE_CONTENT"@),
{
    reveal_strlit("BUILD_TARGET");
    reveal_strlit("BUILD_TIME_UTC");
    reveal_strlit("LICENSE_CONTENT");
    let p = reserved_prefix();
    let a = "BUILD_TARGET"@;
    assert forall|i: int| 1 <= i < a.len() implies is_name_char(#[trigger] a[i]) by {}
    assert(a.take(p.len() as int)[0] != p[0]);
    let b = "BUILD_TIME_UTC"@;
    assert forall|i: int| 1 <= i < b.len() implies is_name_char(#[trigger] b[i]) by {}
    assert(b.take(p.len() as int)[0] != p[0]);
    let c = "LICENSE_CONTENT"@;
    assert forall|i: int| 1 <= i < c.len() implies is_name_char(#[trigger] c[i]) by {}
    assert(c.take(p.len() as int)[0] != p[0]);
}

/// Injects the metadata of one build. The bindings and rebuild triggers of
/// `facts` are added to `out`; the result says whether the generated file
/// has to be written over what the destination holds (`existing`; nothing
/// where it could not be read).
pub fn inject_build_metadata(out: &mut BuildOutput, facts: &BuildFacts, existing: Option<&[u8]>) -> (r:
    WriteDecision)
    ensures
        final(out)@ == old(out)@ + injected_directives(facts@),
        r == write_decision(existing_view(existing), GENERATED_SOURCE.spec_bytes()),
{
    proof {
        lemma_injected_names();
    }
    let ghost before = out@;
    let ghost f = facts@;
    let _ = set_cargo_env_var(out, "BUILD_TARGET", facts.build_target());
    let build_time_utc = u64_to_decimal(facts.build_time_utc());
    let _ = set_cargo_env_var(out, "BUILD_TIME_UTC", build_time_utc.as_str());
    match facts.license_content() {
        Some(license_content) => {
            let _ = set_cargo_env_var(out, "LICENSE_CONTENT", license_content);
        },
        None => {},
    }
    let decision = decide_write(existing, generated_contents());
    out.rerun_if_changed("Cargo.toml");
    match facts.license_path() {
        Some(license_path) => {
            let shown = display_path(license_path);
            out.rerun_if_changed(shown.as_str());
        },
        None => {},
    }
    proof {
        assert(out@ =~= before + injected_directives(f));
    }
    decision
}

/// Injecting twice is injecting once: whatever the destination held
/// before, after the first injection it holds the contents, the second
/// injection with the same contents decides to skip the write, and the
/// destination holds the same bytes after it.
pub proof fn lemma_injection_idempotent(existing: Option<Seq<u8>>, contents: Seq<u8>)
    ensures
        destination_after(existing, contents) == contents,
        write_decision(Some(destination_after(existing, contents)), contents)
            == WriteDecision::Skip,
        destination_after(Some(destination_after(existing, contents)), contents)
            == destination_after(existing, contents),
{
}

/// Without a license path there is no license binding, whatever text was
/// at hand: the injector then emits the two bindings of the build and the
/// trigger for the manifest, and nothing else.
pub proof fn lemma_no_license_without_path(
    target: Option<Seq<char>>,
    now_secs: nat,
    license_text: Option<Seq<char>>,
)
    ensures
        gathered(target, now_secs, None, license_text).license_content is None,
        injected_directives(gathered(target, now_secs, None, license_text)) == seq![
            env_directive("BUILD_TARGET"@, gathered(target, now_secs, None, license_text).build_target),
            env_directive("BUILD_TIME_UTC"@, decimal(now_secs)),
            rerun_directive("Cargo.toml"@),
        ],
{
    let facts = gathered(target, now_secs, None, license_text);
    assert(injected_directives(facts) =~= seq![
        env_directive("BUILD_TARGET"@, facts.build_target),
        env_directive("BUILD_TIME_UTC"@, decimal(now_secs)),
        rerun_directive("Cargo.toml"@),
    ]);
}

} // verus!
