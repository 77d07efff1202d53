use vstd::prelude::*;
use vstd::string::*;

use crate::event::{events_view, DebugEvent};

verus! {

/// The value a build-environment input takes where the build did not provide it.
pub open spec fn captured_or_unknown(v: Option<&str>) -> Seq<char> {
    match v {
        Some(s) => s@,
        None => "unknown"@,
    }
}

/// The value an optional build-environment input (a version segment appended only
/// when present) takes where the build did not provide it.
pub open spec fn captured_or_empty(v: Option<&str>) -> Seq<char> {
    match v {
        Some(s) => s@,
        None => Seq::empty(),
    }
}

/// `major.minor.patch`, then `-pre` where `pre` is not empty, then `+build` where
/// `build` is not empty.
pub open spec fn semver_text(
    major: Seq<char>,
    minor: Seq<char>,
    patch: Seq<char>,
    pre: Seq<char>,
    build: Seq<char>,
) -> Seq<char> {
    let core = major + "."@ + minor + "."@ + patch;
    let with_pre = if pre.len() > 0 {
        core + "-"@ + pre
    } else {
        core
    };
    if build.len() > 0 {
        with_pre + "+"@ + build
    } else {
        with_pre
    }
}

/// With no pre-release and no build segment the semantic version is exactly
/// `major.minor.patch`, with nothing after the patch component.
pub proof fn lemma_semver_release(major: Seq<char>, minor: Seq<char>, patch: Seq<char>)
    ensures
        semver_text(major, minor, patch, Seq::empty(), Seq::empty()) == major + "."@ + minor
            + "."@ + patch,
{
}

/// With the pre-release segment "beta.1" and no build segment the semantic version
/// is `major.minor.patch-beta.1`.
pub proof fn lemma_semver_pre_release(major: Seq<char>, minor: Seq<char>, patch: Seq<char>)
    ensures
        semver_text(major, minor, patch, "beta.1"@, Seq::empty()) == major + "."@ + minor + "."@
            + patch + "-beta.1"@,
{
    reveal_strlit("beta.1");
    reveal_strlit("-");
    reveal_strlit("-beta.1");
    assert("-"@ + "beta.1"@ =~= "-beta.1"@);
    assert(major + "."@ + minor + "."@ + patch + "-"@ + "beta.1"@ =~= major + "."@ + minor + "."@
        + patch + "-beta.1"@);
}

/// With no pre-release segment and the build segment "20240101" the semantic version
/// is `major.minor.patch+20240101`.
pub proof fn lemma_semver_build(major: Seq<char>, minor: Seq<char>, patch: Seq<char>)
    ensures
        semver_text(major, minor, patch, Seq::empty(), "20240101"@) == major + "."@ + minor
            + "."@ + patch + "+20240101"@,
{
    reveal_strlit("20240101");
    reveal_strlit("+");
    reveal_strlit("+20240101");
    assert("+"@ + "20240101"@ =~= "+20240101"@);
    assert(major + "."@ + minor + "."@ + patch + "+"@ + "20240101"@ =~= major + "."@ + minor
        + "."@ + patch + "+20240101"@);
}

/// The facts that only the build environment knows, fixed when the program is built
/// and handed to the gathering functions at run time.
#[derive(Clone, Debug)]
pub struct BuildConfig {
    pub profile: String,
    pub host: String,
    pub target: String,
    pub target_family: String,
    pub target_os: String,
    pub target_arch: String,
    pub target_pointer_width: String,
    pub target_endian: String,
    pub target_features: String,
    pub rustc_major: String,
    pub rustc_minor: String,
    pub rustc_patch: String,
    pub rustc_pre: String,
    pub rustc_build: String,
    pub rustc_commit_hash: String,
    pub rustc_commit_date: String,
    pub llvm_version: String,
}

impl BuildConfig {
    /// The build facts from the build-environment inputs: a missing pre-release or
    /// build segment reads as the empty string, every other missing input as
    /// "unknown".
    pub fn new(
        profile: Option<&str>,
        host: Option<&str>,
        target: Option<&str>,
        target_family: Option<&str>,
        target_os: Option<&str>,
        target_arch: Option<&str>,
        target_pointer_width: Option<&str>,
        target_endian: Option<&str>,
        target_features: Option<&str>,
        rustc_major: Option<&str>,
        rustc_minor: Option<&str>,
        rustc_patch: Option<&str>,
        rustc_pre: Option<&str>,
        rustc_build: Option<&str>,
        rustc_commit_hash: Option<&str>,
        rustc_commit_date: Option<&str>,
        llvm_version: Option<&str>,
    ) -> (r: Self)
        ensures
            r.profile@ == captured_or_unknown(profile),
            r.host@ == captured_or_unknown(host),
            r.target@ == captured_or_unknown(target),
            r.target_family@ == captured_or_unknown(target_family),
            r.target_os@ == captured_or_unknown(target_os),
            r.target_arch@ == captured_or_unknown(target_arch),
            r.target_pointer_width@ == captured_or_unknown(target_pointer_width),
            r.target_endian@ == captured_or_unknown(target_endian),
            r.target_features@ == captured_or_unknown(target_features),
            r.rustc_major@ == captured_or_unknown(rustc_major),
            r.rustc_minor@ == captured_or_unknown(rustc_minor),
            r.rustc_patch@ == captured_or_unknown(rustc_patch),
            r.rustc_pre@ == captured_or_empty(rustc_pre),
            r.rustc_build@ == captured_or_empty(rustc_build),
            r.rustc_commit_hash@ == captured_or_unknown(rustc_commit_hash),
            r.rustc_commit_date@ == captured_or_unknown(rustc_commit_date),
            r.llvm_version@ == captured_or_unknown(llvm_version),
    {
        BuildConfig {
            profile: BuildConfig::capture(profile),
            host: BuildConfig::capture(host),
            target: BuildConfig::capture(target),
            target_family: BuildConfig::capture(target_family),
            target_os: BuildConfig::capture(target_os),
            target_arch: BuildConfig::capture(target_arch),
            target_pointer_width: BuildConfig::capture(target_pointer_width),
            target_endian: BuildConfig::capture(target_endian),
            target_features: BuildConfig::capture(target_features),
            rustc_major: BuildConfig::capture(rustc_major),
            rustc_minor: BuildConfig::capture(rustc_minor),
            rustc_patch: BuildConfig::capture(rustc_patch),
            rustc_pre: BuildConfig::capture_optional(rustc_pre),
            rustc_build: BuildConfig::capture_optional(rustc_build),
            rustc_commit_hash: BuildConfig::capture(rustc_commit_hash),
            rustc_commit_date: BuildConfig::capture(rustc_commit_date),
            llvm_version: BuildConfig::capture(llvm_version),
        }
    }

    /// Captures a build-environment input, substituting "unknown" where it is absent.
    pub fn capture(v: Option<&str>) -> (r: String)
        ensures
            r@ == captured_or_unknown(v),
    {
        match v {
            Some(s) => s.to_owned(),
            None => "unknown".to_owned(),
        }
    }

    /// Captures an optional build-environment input, substituting the empty string
    /// where it is absent.
    pub fn capture_optional(v: Option<&str>) -> (r: String)
        ensures
            r@ == captured_or_empty(v),
    {
        match v {
            Some(s) => s.to_owned(),
            None => String::new(),
        }
    }
}

/// How the build was configured.
#[derive(Clone, Debug)]
pub struct CargoTarget {
    /// Typically either "debug" or "release"
    pub profile: String,
    /// The target triple of the environment performing the compilation
    pub host: String,
    /// The target triple of the environment the artifact is built for
    pub target: String,
    /// The family of the target, eg "unix"
    pub family: String,
    /// The OS within the target family, eg "linux"
    pub os: String,
    /// The CPU architecture of the target, eg "x86_64"
    pub arch: String,
    /// The number of bits in a pointer on the target, eg "64"
    pub pointer_width: String,
    /// The endianness of the target, eg "little"
    pub endian: String,
    /// A comma separated list of the target features in use, eg "fxsr,sse,sse2"
    pub features: String,
}

impl CargoTarget {
    /// The target configuration recorded in the build facts.
    pub fn gather(cfg: &BuildConfig) -> (r: Self)
        ensures
            r.profile@ == cfg.profile@,
            r.host@ == cfg.host@,
            r.target@ == cfg.target@,
            r.family@ == cfg.target_family@,
            r.os@ == cfg.target_os@,
            r.arch@ == cfg.target_arch@,
            r.pointer_width@ == cfg.target_pointer_width@,
            r.endian@ == cfg.target_endian@,
            r.features@ == cfg.target_features@,
    {
        CargoTarget {
            profile: cfg.profile.clone(),
            host: cfg.host.clone(),
            target: cfg.target.clone(),
            family: cfg.target_family.clone(),
            os: cfg.target_os.clone(),
            arch: cfg.target_arch.clone(),
            pointer_width: cfg.target_pointer_width.clone(),
            endian: cfg.target_endian.clone(),
            features: cfg.target_features.clone(),
        }
    }

    /// The view of the event that describes the target configuration.
    pub open spec fn log_debug_view(&self) -> (Seq<char>, Seq<(Seq<char>, Seq<char>)>) {
        ("Cargo target information:"@, seq![
            ("profile"@, self.profile@),
            ("host"@, self.host@),
            ("target"@, self.target@),
            ("family"@, self.family@),
            ("os"@, self.os@),
            ("arch"@, self.arch@),
            ("pointer_width"@, self.pointer_width@),
            ("endian"@, self.endian@),
            ("features"@, self.features@),
        ])
    }

    /// The debug event that describes the target configuration.
    pub fn log_debug(&self) -> (r: DebugEvent)
        ensures
            r@ == self.log_debug_view(),
    {
        let mut ev = DebugEvent::new("Cargo target information:");
        ev.push_field("profile", self.profile.as_str());
        ev.push_field("host", self.host.as_str());
        ev.push_field("target", self.target.as_str());
        ev.push_field("family", self.family.as_str());
        ev.push_field("os", self.os.as_str());
        ev.push_field("arch", self.arch.as_str());
        ev.push_field("pointer_width", self.pointer_width.as_str());
        ev.push_field("endian", self.endian.as_str());
        ev.push_field("features", self.features.as_str());
        assert(ev@.1 =~= seq![
            ("profile"@, self.profile@),
            ("host"@, self.host@),
            ("target"@, self.target@),
            ("family"@, self.family@),
            ("os"@, self.os@),
            ("arch"@, self.arch@),
            ("pointer_width"@, self.pointer_width@),
            ("endian"@, self.endian@),
            ("features"@, self.features@),
        ]);
        ev
    }
}

/// Details of the compiler that built the program.
#[derive(Clone, Debug)]
pub struct RustcVersion {
    pub rustc_semver: String,
    pub commit_hash: String,
    pub commit_date: String,
    pub llvm_version: String,
}

/// Joins the version components into one semantic version string.
pub fn semantic_version(major: &str, minor: &str, patch: &str, pre: &str, build: &str) -> (r:
    String)
    ensures
        r@ == semver_text(major@, minor@, patch@, pre@, build@),
{
    let mut s = major.to_owned();
    s.append(".");
    s.append(minor);
    s.append(".");
    s.append(patch);
    if !pre.is_empty() {
        s.append("-");
        s.append(pre);
    }
    if !build.is_empty() {
        s.append("+");
        s.append(build);
    }
    s
}

impl RustcVersion {
    /// The compiler details recorded in the build facts.
    pub fn gather(cfg: &BuildConfig) -> (r: Self)
        ensures
            r.rustc_semver@ == semver_text(
                cfg.rustc_major@,
                cfg.rustc_minor@,
                cfg.rustc_patch@,
                cfg.rustc_pre@,
                cfg.rustc_build@,
            ),
            r.commit_hash@ == cfg.rustc_commit_hash@,
            r.commit_date@ == cfg.rustc_commit_date@,
            r.llvm_version@ == cfg.llvm_version@,
    {
        RustcVersion {
            rustc_semver: semantic_version(
                cfg.rustc_major.as_str(),
                cfg.rustc_minor.as_str(),
                cfg.rustc_patch.as_str(),
                cfg.rustc_pre.as_str(),
                cfg.rustc_build.as_str(),
            ),
            commit_hash: cfg.rustc_commit_hash.clone(),
            commit_date: cfg.rustc_commit_date.clone(),
            llvm_version: cfg.llvm_version.clone(),
        }
    }

    /// The view of the event that describes the compiler.
    pub open spec fn log_debug_view(&self) -> (Seq<char>, Seq<(Seq<char>, Seq<char>)>) {
        ("Rustc information:"@, seq![
            ("rustc_semver"@, self.rustc_semver@),
            ("commit_hash"@, self.commit_hash@),
            ("commit_date"@, self.commit_date@),
            ("llvm_version"@, self.llvm_version@),
        ])
    }

    /// The debug event that describes the compiler.
    pub fn log_debug(&self) -> (r: DebugEvent)
        ensures
            r@ == self.log_debug_view(),
    {
        let mut ev = DebugEvent::new("Rustc information:");
        ev.push_field("rustc_semver", self.rustc_semver.as_str());
        ev.push_field("commit_hash", self.commit_hash.as_str());
        ev.push_field("commit_date", self.commit_date.as_str());
        ev.push_field("llvm_version", self.llvm_version.as_str());
        assert(ev@.1 =~= seq![
            ("rustc_semver"@, self.rustc_semver@),
            ("commit_hash"@, self.commit_hash@),
            ("commit_date"@, self.commit_date@),
            ("llvm_version"@, self.llvm_version@),
        ]);
        ev
    }
}

/// `c` holds what the build facts `cfg` record: the target configuration as it
/// stands, and the compiler's version components joined into one semantic version.
pub open spec fn compile_info_from(c: CompileInfo, cfg: BuildConfig) -> bool {
    &&& c.target.profile@ == cfg.profile@
    &&& c.target.host@ == cfg.host@
    &&& c.target.target@ == cfg.target@
    &&& c.target.family@ == cfg.target_family@
    &&& c.target.os@ == cfg.target_os@
    &&& c.target.arch@ == cfg.target_arch@
    &&& c.target.pointer_width@ == cfg.target_pointer_width@
    &&& c.target.endian@ == cfg.target_endian@
    &&& c.target.features@ == cfg.target_features@
    &&& c.rustc.rustc_semver@ == semver_text(
        cfg.rustc_major@,
        cfg.rustc_minor@,
        cfg.rustc_patch@,
        cfg.rustc_pre@,
        cfg.rustc_build@,
    )
    &&& c.rustc.commit_hash@ == cfg.rustc_commit_hash@
    &&& c.rustc.commit_date@ == cfg.rustc_commit_date@
    &&& c.rustc.llvm_version@ == cfg.llvm_version@
}

/// The two records hold the same text in every field.
pub open spec fn same_compile_info(a: CompileInfo, b: CompileInfo) -> bool {
    &&& a.target.log_debug_view() == b.target.log_debug_view()
    &&& a.rustc.log_debug_view() == b.rustc.log_debug_view()
}

/// How the program was compiled.
#[derive(Clone, Debug)]
pub struct CompileInfo {
    pub target: CargoTarget,
    pub rustc: RustcVersion,
}

impl CompileInfo {
    /// The compile information recorded in the build facts.
    pub fn gather(cfg: &BuildConfig) -> (r: Self)
        ensures
            compile_info_from(r, *cfg),
    {
        CompileInfo { target: CargoTarget::gather(cfg), rustc: RustcVersion::gather(cfg) }
    }

    /// The debug events that describe the compilation: the target's, then the
    /// compiler's.
    pub fn log_debug(&self) -> (r: Vec<DebugEvent>)
        ensures
            events_view(r@) == seq![self.target.log_debug_view(), self.rustc.log_debug_view()],
    {
        let mut r: Vec<DebugEvent> = Vec::new();
        r.push(self.target.log_debug());
        r.push(self.rustc.log_debug());
        assert(events_view(r@) =~= seq![self.target.log_debug_view(), self.rustc.log_debug_view()]);
        r
    }
}

} // verus!
