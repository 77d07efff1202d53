use vstd::prelude::*;

use crate::compile_info::{compile_info_from, same_compile_info, BuildConfig, CompileInfo};
use crate::crate_info::{crate_info_from, CrateInfo};
use crate::envvars::{EnvEntry, EnvVars};
use crate::event::{events_view, DebugEvent};
use crate::system_info::SystemInfo;

verus! {

/// How Rust's `Debug` writes a string: in double quotes, with escapes.
pub uninterp spec fn debug_quoted(s: Seq<char>) -> Seq<char>;

/// Relies on `<str as Debug>::fmt` for the quoted, escaped text of a string, which
/// depends on the characters alone.
#[verifier::external_body]
fn quote(s: &str) -> (r: String)
    ensures
        r@ == debug_quoted(s@),
{
    format!("{:?}", s)
}

/// The parts separated by ", ".
pub open spec fn joined(parts: Seq<Seq<char>>) -> Seq<char>
    decreases parts.len(),
{
    if parts.len() == 0 {
        Seq::empty()
    } else if parts.len() == 1 {
        parts[0]
    } else {
        joined(parts.drop_last()) + ", "@ + parts.last()
    }
}

/// How `Debug` writes a list of strings.
pub open spec fn list_text(items: Seq<Seq<char>>) -> Seq<char> {
    "["@ + joined(items.map_values(|a: Seq<char>| debug_quoted(a))) + "]"@
}

/// How `Debug` writes an optional string.
pub open spec fn option_text(v: Option<Seq<char>>) -> Seq<char> {
    match v {
        Some(s) => "Some("@ + debug_quoted(s) + ")"@,
        None => "None"@,
    }
}

/// How `Debug` writes a map from names to optional values, in the given entry order.
pub open spec fn map_text(entries: Seq<EnvEntry>) -> Seq<char> {
    "{"@ + joined(entries.map_values(|e: EnvEntry| debug_quoted(e.0) + ": "@ + option_text(e.1)))
        + "}"@
}

/// `open`, then the parts separated by ", ", then `close`.
pub fn enclose_joined(open: &str, parts: &Vec<String>, close: &str) -> (r: String)
    ensures
        r@ == open@ + joined(parts@.map_values(|p: String| p@)) + close@,
{
    let ghost all = parts@.map_values(|p: String| p@);
    let mut s = open.to_owned();
    let mut i: usize = 0;
    while i < parts.len()
        invariant
            i <= parts.len(),
            all == parts@.map_values(|p: String| p@),
            s@ == open@ + joined(all.take(i as int)),
        decreases parts.len() - i,
    {
        if i > 0 {
            s.append(", ");
        }
        s.append(parts[i].as_str());
        proof {
            let next = all.take(i + 1);
            assert(next.drop_last() =~= all.take(i as int));
            if i == 0 {
                assert(all.take(0) =~= Seq::<Seq<char>>::empty());
            }
        }
        i = i + 1;
    }
    assert(all.take(parts.len() as int) =~= all);
    s.append(close);
    s
}

/// The `Debug` text of a list of strings.
pub fn list_debug(items: &Vec<String>) -> (r: String)
    ensures
        r@ == list_text(items@.map_values(|a: String| a@)),
{
    let mut parts: Vec<String> = Vec::new();
    let mut i: usize = 0;
    while i < items.len()
        invariant
            i <= items.len(),
            parts@.len() == i,
            forall|j: int| 0 <= j < i ==> #[trigger] parts@[j]@ == debug_quoted(items@[j]@),
        decreases items.len() - i,
    {
        parts.push(quote(items[i].as_str()));
        i = i + 1;
    }
    let r = enclose_joined("[", &parts, "]");
    assert(parts@.map_values(|p: String| p@) =~= items@.map_values(|a: String| a@).map_values(
        |a: Seq<char>| debug_quoted(a),
    ));
    r
}

/// The `Debug` text of an optional string.
fn option_debug(v: &Option<String>) -> (r: String)
    ensures
        r@ == option_text(v.deep_view()),
{
    match v {
        Some(s) => {
            let mut r = "Some(".to_owned();
            r.append(quote(s.as_str()).as_str());
            r.append(")");
            r
        },
        None => "None".to_owned(),
    }
}

/// The `Debug` text of the recorded environment variables, in the order their names
/// were first recorded.
pub fn envvars_debug(vars: &EnvVars) -> (r: String)
    ensures
        r@ == map_text(vars.entry_seq()),
{
    let entries = vars.entries();
    let ghost es = entries.deep_view();
    let mut parts: Vec<String> = Vec::new();
    let mut i: usize = 0;
    while i < entries.len()
        invariant
            i <= entries.len(),
            es == entries.deep_view(),
            parts@.len() == i,
            forall|j: int|
                0 <= j < i ==> #[trigger] parts@[j]@ == debug_quoted(es[j].0) + ": "@
                    + option_text(es[j].1),
        decreases entries.len() - i,
    {
        let mut part = quote(entries[i].0.as_str());
        part.append(": ");
        part.append(option_debug(&entries[i].1).as_str());
        parts.push(part);
        i = i + 1;
    }
    let r = enclose_joined("{", &parts, "}");
    assert(parts@.map_values(|p: String| p@) =~= es.map_values(
        |e: EnvEntry| debug_quoted(e.0) + ": "@ + option_text(e.1),
    ));
    r
}

/// The mapping after recording each `(name, value)` of `vars` in turn, a later value
/// of a name replacing an earlier one.
pub open spec fn enriched(
    m: Map<Seq<char>, Option<Seq<char>>>,
    vars: Seq<EnvEntry>,
) -> Map<Seq<char>, Option<Seq<char>>>
    decreases vars.len(),
{
    if vars.len() == 0 {
        m
    } else {
        enriched(m, vars.drop_last()).insert(vars.last().0, vars.last().1)
    }
}

/// Recording a name that was not recorded before maps it to the value found, `None`
/// where the variable is not set; recording a name twice keeps only the later value.
pub proof fn lemma_envvar_last_write_wins(
    m: Map<Seq<char>, Option<Seq<char>>>,
    name: Seq<char>,
    first: Option<Seq<char>>,
    second: Option<Seq<char>>,
)
    ensures
        m.insert(name, first).contains_key(name),
        m.insert(name, first)[name] == first,
        m.insert(name, first).insert(name, second) == m.insert(name, second),
        m.insert(name, first).insert(name, second).dom() == m.dom().insert(name),
{
    assert(m.insert(name, first).insert(name, second) =~= m.insert(name, second));
    assert(m.insert(name, first).insert(name, second).dom() =~= m.dom().insert(name));
}

/// Recording a list of variables is recording each in turn: recording `xs` then
/// `ys` gives what recording `xs + ys` gives, and recording two variables as a list
/// is recording the first, then the second.
pub proof fn lemma_enriched_in_order(
    m: Map<Seq<char>, Option<Seq<char>>>,
    xs: Seq<EnvEntry>,
    ys: Seq<EnvEntry>,
    a: EnvEntry,
    b: EnvEntry,
)
    ensures
        enriched(m, xs + ys) == enriched(enriched(m, xs), ys),
        enriched(m, seq![a, b]) == m.insert(a.0, a.1).insert(b.0, b.1),
{
    lemma_enriched_concat(m, xs, ys);
    lemma_enriched_pair(m, a, b);
}

/// Recording `xs + ys` is recording `xs`, then `ys`.
proof fn lemma_enriched_concat(
    m: Map<Seq<char>, Option<Seq<char>>>,
    xs: Seq<EnvEntry>,
    ys: Seq<EnvEntry>,
)
    ensures
        enriched(m, xs + ys) == enriched(enriched(m, xs), ys),
    decreases ys.len(),
{
    if ys.len() == 0 {
        assert(xs + ys =~= xs);
    } else {
        assert((xs + ys).drop_last() =~= xs + ys.drop_last());
        lemma_enriched_concat(m, xs, ys.drop_last());
    }
}

/// Recording two entries as a list is recording the first, then the second.
proof fn lemma_enriched_pair(m: Map<Seq<char>, Option<Seq<char>>>, a: EnvEntry, b: EnvEntry)
    ensures
        enriched(m, seq![a, b]) == m.insert(a.0, a.1).insert(b.0, b.1),
{
    assert(seq![a, b].drop_last() =~= seq![a]);
    assert(seq![a].drop_last() =~= Seq::<EnvEntry>::empty());
    assert(enriched(m, Seq::<EnvEntry>::empty()) == m);
    assert(seq![a].last() == a);
    assert(enriched(m, seq![a]) == m.insert(a.0, a.1));
    assert(seq![a, b].last() == b);
    assert(enriched(m, seq![a, b]) == enriched(m, seq![a]).insert(b.0, b.1));
}

/// The mapping that recording two different names gives does not depend on the order
/// in which they are recorded.
pub proof fn lemma_enriched_distinct_names_commute(
    m: Map<Seq<char>, Option<Seq<char>>>,
    a: EnvEntry,
    b: EnvEntry,
)
    requires
        a.0 != b.0,
    ensures
        enriched(m, seq![a, b]) == enriched(m, seq![b, a]),
{
    lemma_enriched_pair(m, a, b);
    lemma_enriched_pair(m, b, a);
    assert(m.insert(a.0, a.1).insert(b.0, b.1) =~= m.insert(b.0, b.1).insert(a.0, a.1));
}

/// One snapshot of the diagnostics metadata.
#[derive(Clone, Debug)]
pub struct RummageInfo {
    /// The component that asked for the snapshot
    pub crate_info: CrateInfo,
    /// How the program was compiled
    pub compile_info: CompileInfo,
    /// The system the program runs on
    pub system_info: SystemInfo,
    /// The full command line the program was invoked with, program name first
    pub command_line: Vec<String>,
    /// The environment variables recorded with `with_envvar` or `with_envvars`
    pub envvars: EnvVars,
}

/// `r` is the snapshot assembled from the build facts `cfg`, the revision
/// descriptor and package identity of the component, the system facts and the
/// command line, with no environment variables recorded yet.
pub open spec fn snapshot_from(
    r: RummageInfo,
    cfg: BuildConfig,
    git_version: Seq<char>,
    crate_name: Option<&str>,
    crate_version: Option<&str>,
    bin_name: Option<&str>,
    system_info: SystemInfo,
    command_line: Seq<String>,
) -> bool {
    &&& crate_info_from(r.crate_info, git_version, crate_name, crate_version, bin_name)
    &&& compile_info_from(r.compile_info, cfg)
    &&& r.system_info == system_info
    &&& r.command_line@ == command_line
    &&& r.envvars@ == Map::<Seq<char>, Option<Seq<char>>>::empty()
}

/// Two snapshots assembled in the same program agree on the component and the
/// compile information; their command lines are the same exactly where the command
/// lines handed in are; and their system information is the same where the system
/// queries returned the same.
pub proof fn lemma_snapshots_agree(
    a: RummageInfo,
    b: RummageInfo,
    cfg: BuildConfig,
    git_version: Seq<char>,
    crate_name: Option<&str>,
    crate_version: Option<&str>,
    bin_name: Option<&str>,
    system_a: SystemInfo,
    system_b: SystemInfo,
    command_line_a: Seq<String>,
    command_line_b: Seq<String>,
)
    requires
        snapshot_from(
            a,
            cfg,
            git_version,
            crate_name,
            crate_version,
            bin_name,
            system_a,
            command_line_a,
        ),
        snapshot_from(
            b,
            cfg,
            git_version,
            crate_name,
            crate_version,
            bin_name,
            system_b,
            command_line_b,
        ),
    ensures
        a.crate_info.log_debug_view() == b.crate_info.log_debug_view(),
        same_compile_info(a.compile_info, b.compile_info),
        (a.command_line@ == b.command_line@) <==> (command_line_a == command_line_b),
        system_a == system_b ==> a.system_info == b.system_info,
        a.envvars@ == b.envvars@,
{
}

/// The views of the events that describe a snapshot, in the order they are emitted.
pub open spec fn snapshot_events(
    info: RummageInfo,
) -> Seq<(Seq<char>, Seq<(Seq<char>, Seq<char>)>)> {
    seq![
        info.crate_info.log_debug_view(),
        info.compile_info.target.log_debug_view(),
        info.compile_info.rustc.log_debug_view(),
        info.system_info.log_debug_view(),
        ("Command line args:"@, seq![("args"@, list_text(info.command_line@.map_values(|a: String| a@)))]),
        ("Environment variables:"@, seq![("args"@, map_text(info.envvars.entry_seq()))]),
    ]
}

impl RummageInfo {
    /// Assembles a snapshot from the build facts, the component's revision
    /// descriptor and package identity (a placeholder for each missing value), what
    /// the system queries returned, and the command line.
    pub fn gather(
        cfg: &BuildConfig,
        git_version: &str,
        crate_name: Option<&str>,
        crate_version: Option<&str>,
        bin_name: Option<&str>,
        system_info: SystemInfo,
        command_line: Vec<String>,
    ) -> (r: Self)
        ensures
            snapshot_from(
                r,
                *cfg,
                git_version@,
                crate_name,
                crate_version,
                bin_name,
                system_info,
                command_line@,
            ),
    {
        RummageInfo {
            crate_info: CrateInfo::from_build(git_version, crate_name, crate_version, bin_name),
            compile_info: CompileInfo::gather(cfg),
            system_info,
            command_line,
            envvars: EnvVars::new(),
        }
    }

    /// Records the environment variable `name` with the value it was found to have,
    /// `None` where it is not set; a value recorded earlier for that name is
    /// replaced.
    pub fn with_envvar(self, name: &str, value: Option<String>) -> (r: Self)
        ensures
            r.envvars@ == self.envvars@.insert(name@, value.deep_view()),
            r.crate_info == self.crate_info,
            r.compile_info == self.compile_info,
            r.system_info == self.system_info,
            r.command_line == self.command_line,
    {
        let RummageInfo { crate_info, compile_info, system_info, command_line, envvars } = self;
        RummageInfo {
            crate_info,
            compile_info,
            system_info,
            command_line,
            envvars: envvars.insert(name.to_owned(), value),
        }
    }

    /// Records each `(name, value)` of `vars` in turn, as `with_envvar` does.
    pub fn with_envvars(self, vars: Vec<(String, Option<String>)>) -> (r: Self)
        ensures
            r.envvars@ == enriched(self.envvars@, vars.deep_view()),
            r.crate_info == self.crate_info,
            r.compile_info == self.compile_info,
            r.system_info == self.system_info,
            r.command_line == self.command_line,
    {
        let ghost start = self;
        let ghost all = vars.deep_view();
        let mut info = self;
        let mut i: usize = 0;
        while i < vars.len()
            invariant
                i <= vars.len(),
                all == vars.deep_view(),
                info.envvars@ == enriched(start.envvars@, all.take(i as int)),
                info.crate_info == start.crate_info,
                info.compile_info == start.compile_info,
                info.system_info == start.system_info,
                info.command_line == start.command_line,
            decreases vars.len() - i,
        {
            let value = match &vars[i].1 {
                Some(v) => Some(v.clone()),
                None => None,
            };
            assert(value.deep_view() == all[i as int].1);
            info = info.with_envvar(vars[i].0.as_str(), value);
            assert(all.take(i + 1).drop_last() =~= all.take(i as int));
            i = i + 1;
        }
        assert(all.take(vars.len() as int) =~= all);
        info
    }

    /// The debug events that describe the snapshot: the component, the target, the
    /// compiler, the system, the command line and the recorded environment
    /// variables, in that order.
    pub fn log_debug(&self) -> (r: Vec<DebugEvent>)
        ensures
            events_view(r@) == snapshot_events(*self),
    {
        let mut r: Vec<DebugEvent> = Vec::new();
        r.push(self.crate_info.log_debug());
        r.push(self.compile_info.target.log_debug());
        r.push(self.compile_info.rustc.log_debug());
        r.push(self.system_info.log_debug());
        let mut args = DebugEvent::new("Command line args:");
        args.push_field("args", list_debug(&self.command_line).as_str());
        r.push(args);
        let mut vars = DebugEvent::new("Environment variables:");
        vars.push_field("args", envvars_debug(&self.envvars).as_str());
        r.push(vars);
        assert(events_view(r@) =~= snapshot_events(*self));
        r
    }
}

} // verus!
