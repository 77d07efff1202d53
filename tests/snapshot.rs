use rummage::compile_info::{semantic_version, BuildConfig, CargoTarget, CompileInfo, RustcVersion};
use rummage::crate_info::{split_revision, CrateInfo};
use rummage::envvars::EnvVars;
use rummage::event::DebugEvent;
use rummage::info::{envvars_debug, list_debug, RummageInfo};
use rummage::system_info::SystemInfo;

fn s(v: &str) -> String {
    v.to_string()
}

fn config() -> BuildConfig {
    BuildConfig {
        profile: s("release"),
        host: s("x86_64-unknown-linux-gnu"),
        target: s("aarch64-unknown-linux-gnu"),
        target_family: s("unix"),
        target_os: s("linux"),
        target_arch: s("aarch64"),
        target_pointer_width: s("64"),
        target_endian: s("little"),
        target_features: s("neon,fp-armv8"),
        rustc_major: s("1"),
        rustc_minor: s("75"),
        rustc_patch: s("0"),
        rustc_pre: s(""),
        rustc_build: s(""),
        rustc_commit_hash: s("82e1608dfa6e0b5569232559e3d385fea5a93112"),
        rustc_commit_date: s("2023-12-21"),
        llvm_version: s("17.0"),
    }
}

fn fields(ev: &DebugEvent) -> Vec<(String, String)> {
    ev.fields.iter().map(|f| (f.name.clone(), f.value.clone())).collect()
}

fn snapshot(args: &[&str]) -> RummageInfo {
    let system = SystemInfo::gather(
        Some(s("host-1")),
        Some(s("Linux")),
        Some(s("6.1.0")),
        Some(s("Debian GNU/Linux 12")),
        Some(s("GenuineIntel")),
        None,
    );
    RummageInfo::gather(
        &config(),
        "abc123-dirty",
        Some("tool"),
        Some("0.3.1"),
        None,
        system,
        args.iter().map(|a| a.to_string()).collect(),
    )
}

#[test]
fn semver_without_segments() {
    assert_eq!(semantic_version("1", "75", "0", "", ""), "1.75.0");
    assert_eq!(semantic_version("0", "0", "12", "", ""), "0.0.12");
}

#[test]
fn semver_with_pre_release() {
    assert_eq!(semantic_version("1", "80", "0", "beta.1", ""), "1.80.0-beta.1");
}

#[test]
fn semver_with_build() {
    assert_eq!(semantic_version("1", "80", "0", "", "20240101"), "1.80.0+20240101");
}

#[test]
fn semver_with_pre_release_and_build() {
    assert_eq!(semantic_version("2", "0", "1", "rc.2", "nightly"), "2.0.1-rc.2+nightly");
}

#[test]
fn revision_dirty_and_clean() {
    assert_eq!(split_revision("abc123-dirty"), (s("abc123"), true));
    assert_eq!(split_revision("abc123"), (s("abc123"), false));
}

#[test]
fn revision_edge_cases() {
    assert_eq!(split_revision(""), (s(""), false));
    assert_eq!(split_revision("-dirty"), (s(""), true));
    assert_eq!(split_revision("abc-dirty-dirty"), (s("abc-dirty"), true));
    assert_eq!(split_revision("dirty"), (s("dirty"), false));
    assert_eq!(split_revision("abc-dirtyx"), (s("abc-dirtyx"), false));
}

#[test]
fn crate_info_from_descriptor() {
    let c = CrateInfo::new("abc123-dirty", "tool", "0.3.1", "tool-cli");
    assert_eq!(c.git_commit_hash, "abc123");
    assert!(c.is_git_repo_dirty);
    assert_eq!(c.crate_name, "tool");
    assert_eq!(c.crate_version, "0.3.1");
    assert_eq!(c.bin_name, "tool-cli");
}

#[test]
fn crate_info_placeholders() {
    let c = CrateInfo::from_build("f00d", None, Some("1.0.0"), None);
    assert_eq!(c.git_commit_hash, "f00d");
    assert!(!c.is_git_repo_dirty);
    assert_eq!(c.crate_name, "<failed to scrape>");
    assert_eq!(c.crate_version, "1.0.0");
    assert_eq!(c.bin_name, "<failed to scrape>");
}

#[test]
fn crate_info_event() {
    let ev = CrateInfo::new("abc123", "tool", "0.3.1", "tool-cli").log_debug();
    assert_eq!(ev.message, "Crate information:");
    assert_eq!(
        fields(&ev),
        vec![
            (s("git_commit_hash"), s("abc123")),
            (s("git_repo_dirty"), s("false")),
            (s("crate_name"), s("tool")),
            (s("crate_version"), s("0.3.1")),
            (s("bin_name"), s("tool-cli")),
        ]
    );
}

#[test]
fn build_capture_defaults() {
    assert_eq!(BuildConfig::capture(None), "unknown");
    assert_eq!(BuildConfig::capture(Some("linux")), "linux");
    assert_eq!(BuildConfig::capture_optional(None), "");
    assert_eq!(BuildConfig::capture_optional(Some("beta.1")), "beta.1");
}

#[test]
fn compile_info_from_config() {
    let c = CompileInfo::gather(&config());
    assert_eq!(c.target.profile, "release");
    assert_eq!(c.target.host, "x86_64-unknown-linux-gnu");
    assert_eq!(c.target.target, "aarch64-unknown-linux-gnu");
    assert_eq!(c.target.family, "unix");
    assert_eq!(c.target.os, "linux");
    assert_eq!(c.target.arch, "aarch64");
    assert_eq!(c.target.pointer_width, "64");
    assert_eq!(c.target.endian, "little");
    assert_eq!(c.target.features, "neon,fp-armv8");
    assert_eq!(c.rustc.rustc_semver, "1.75.0");
    assert_eq!(c.rustc.commit_hash, "82e1608dfa6e0b5569232559e3d385fea5a93112");
    assert_eq!(c.rustc.commit_date, "2023-12-21");
    assert_eq!(c.rustc.llvm_version, "17.0");
}

#[test]
fn rustc_version_with_segments() {
    let mut cfg = config();
    cfg.rustc_pre = s("nightly");
    cfg.rustc_build = s("x.1");
    assert_eq!(RustcVersion::gather(&cfg).rustc_semver, "1.75.0-nightly+x.1");
}

#[test]
fn compile_events() {
    let c = CompileInfo::gather(&config());
    let evs = c.log_debug();
    assert_eq!(evs.len(), 2);
    assert_eq!(evs[0].message, "Cargo target information:");
    assert_eq!(
        fields(&evs[0]),
        vec![
            (s("profile"), s("release")),
            (s("host"), s("x86_64-unknown-linux-gnu")),
            (s("target"), s("aarch64-unknown-linux-gnu")),
            (s("family"), s("unix")),
            (s("os"), s("linux")),
            (s("arch"), s("aarch64")),
            (s("pointer_width"), s("64")),
            (s("endian"), s("little")),
            (s("features"), s("neon,fp-armv8")),
        ]
    );
    assert_eq!(evs[1].message, "Rustc information:");
    assert_eq!(
        fields(&evs[1]),
        vec![
            (s("rustc_semver"), s("1.75.0")),
            (s("commit_hash"), s("82e1608dfa6e0b5569232559e3d385fea5a93112")),
            (s("commit_date"), s("2023-12-21")),
            (s("llvm_version"), s("17.0")),
        ]
    );
    let target = CargoTarget::gather(&config()).log_debug();
    assert_eq!(fields(&target), fields(&evs[0]));
}

#[test]
fn system_info_all_queries_failed() {
    let sys = SystemInfo::gather(None, None, None, None, None, None);
    assert_eq!(sys.os, "<failed to query OS information>");
    assert_eq!(sys.hostname, None);
    let ev = sys.log_debug();
    assert_eq!(ev.message, "System information:");
    assert_eq!(
        fields(&ev),
        vec![
            (s("hostname"), s("<failed to get>")),
            (s("os"), s("<failed to query OS information>")),
            (s("linux_distro"), s("<failed to get>")),
            (s("cpu_vendor"), s("<failed to get>")),
            (s("cpu_brand_string"), s("<failed to get>")),
        ]
    );
}

#[test]
fn system_info_partial_os_query() {
    let sys = SystemInfo::gather(Some(s("h")), Some(s("Linux")), None, None, None, None);
    assert_eq!(sys.os, "<failed to query OS information>");
    let sys = SystemInfo::gather(None, Some(s("Linux")), Some(s("6.1.0")), None, None, None);
    assert_eq!(sys.os, "Linux 6.1.0");
}

#[test]
fn snapshot_with_absent_system_still_emits() {
    let sys = SystemInfo::gather(None, None, None, None, None, None);
    let info = RummageInfo::gather(&config(), "", None, None, None, sys, vec![]);
    let evs = info.log_debug();
    assert_eq!(evs.len(), 6);
    assert_eq!(fields(&evs[0])[2], (s("crate_name"), s("<failed to scrape>")));
    assert_eq!(fields(&evs[4]), vec![(s("args"), s("[]"))]);
    assert_eq!(fields(&evs[5]), vec![(s("args"), s("{}"))]);
}

#[test]
fn envvar_unset_then_set() {
    let info = snapshot(&["prog"]).with_envvar("X", None);
    assert_eq!(info.envvars.get("X"), Some(None));
    let info = info.with_envvar("X", Some(s("value")));
    assert_eq!(info.envvars.get("X"), Some(Some(s("value"))));
    assert_eq!(info.envvars.entries().len(), 1);
    assert_eq!(info.envvars.get("Y"), None);
}

#[test]
fn envvar_empty_value_is_set() {
    let info = snapshot(&["prog"]).with_envvar("EMPTY", Some(s("")));
    assert_eq!(info.envvars.get("EMPTY"), Some(Some(s(""))));
}

#[test]
fn envvars_match_single_calls() {
    let base = snapshot(&["prog"]);
    let listed = base
        .clone()
        .with_envvars(vec![(s("A"), Some(s("1"))), (s("B"), None)]);
    let chained = base.with_envvar("A", Some(s("1"))).with_envvar("B", None);
    assert_eq!(listed.envvars.entries(), chained.envvars.entries());
    assert_eq!(listed.envvars.get("A"), Some(Some(s("1"))));
    assert_eq!(listed.envvars.get("B"), Some(None));
}

#[test]
fn envvars_repeated_name_keeps_last() {
    let info = snapshot(&["prog"]).with_envvars(vec![
        (s("A"), Some(s("1"))),
        (s("B"), Some(s("2"))),
        (s("A"), Some(s("3"))),
    ]);
    assert_eq!(info.envvars.entries().len(), 2);
    assert_eq!(info.envvars.get("A"), Some(Some(s("3"))));
    assert_eq!(info.envvars.get("B"), Some(Some(s("2"))));
}

#[test]
fn snapshots_in_succession_agree() {
    let a = snapshot(&["prog", "-v"]);
    let b = snapshot(&["prog", "-v"]);
    let c = snapshot(&["prog", "-q"]);
    let ea = a.log_debug();
    let eb = b.log_debug();
    let ec = c.log_debug();
    for i in 0..4 {
        assert_eq!(fields(&ea[i]), fields(&eb[i]));
        assert_eq!(fields(&ea[i]), fields(&ec[i]));
    }
    assert_eq!(a.command_line, b.command_line);
    assert_ne!(a.command_line, c.command_line);
}

#[test]
fn snapshot_events_in_order() {
    let info = snapshot(&["prog", "say \"hi\""])
        .with_envvar("HOME", Some(s("/root")))
        .with_envvar("MISSING", None);
    let evs = info.log_debug();
    let messages: Vec<String> = evs.iter().map(|e| e.message.clone()).collect();
    assert_eq!(
        messages,
        vec![
            s("Crate information:"),
            s("Cargo target information:"),
            s("Rustc information:"),
            s("System information:"),
            s("Command line args:"),
            s("Environment variables:"),
        ]
    );
    assert_eq!(fields(&evs[0])[0], (s("git_commit_hash"), s("abc123")));
    assert_eq!(fields(&evs[0])[1], (s("git_repo_dirty"), s("true")));
    assert_eq!(fields(&evs[3])[1], (s("os"), s("Linux 6.1.0")));
    assert_eq!(fields(&evs[3])[4], (s("cpu_brand_string"), s("<failed to get>")));
    assert_eq!(fields(&evs[4]), vec![(s("args"), s(r#"["prog", "say \"hi\""]"#))]);
    assert_eq!(
        fields(&evs[5]),
        vec![(s("args"), s(r#"{"HOME": Some("/root"), "MISSING": None}"#))]
    );
}

#[test]
fn debug_text_of_lists_and_maps() {
    assert_eq!(list_debug(&vec![]), "[]");
    assert_eq!(list_debug(&vec![s("a\nb")]), r#"["a\nb"]"#);
    let vars = EnvVars::new().insert(s("K"), Some(s("tab\there")));
    assert_eq!(envvars_debug(&vars), r#"{"K": Some("tab\there")}"#);
}

#[test]
fn build_config_fallbacks() {
    let cfg = BuildConfig::new(
        Some("debug"),
        None,
        None,
        Some("unix"),
        None,
        None,
        Some("64"),
        None,
        None,
        Some("1"),
        Some("80"),
        Some("0"),
        None,
        None,
        None,
        None,
        None,
    );
    assert_eq!(cfg.profile, "debug");
    assert_eq!(cfg.host, "unknown");
    assert_eq!(cfg.target_family, "unix");
    assert_eq!(cfg.target_pointer_width, "64");
    assert_eq!(cfg.target_endian, "unknown");
    assert_eq!(cfg.rustc_pre, "");
    assert_eq!(cfg.rustc_build, "");
    assert_eq!(cfg.rustc_commit_hash, "unknown");
    assert_eq!(cfg.rustc_commit_date, "unknown");
    assert_eq!(cfg.llvm_version, "unknown");
    let rustc = RustcVersion::gather(&cfg);
    assert_eq!(rustc.rustc_semver, "1.80.0");
    assert_eq!(rustc.commit_hash, "unknown");
}

#[test]
fn revision_round_trip() {
    for d in ["abc123-dirty", "abc123", "x-dirty-dirty", "", "-dirty"] {
        let (hash, dirty) = split_revision(d);
        let back = if dirty { format!("{hash}-dirty") } else { hash };
        assert_eq!(back, d);
    }
}
