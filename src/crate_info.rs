use vstd::prelude::*;

use crate::event::DebugEvent;

verus! {

/// The suffix that marks a revision descriptor taken from a modified working tree.
pub open spec fn dirty_suffix() -> Seq<char> {
    seq!['-', 'd', 'i', 'r', 't', 'y']
}

/// Whether the descriptor ends in the dirty suffix.
pub open spec fn ends_dirty(s: Seq<char>) -> bool {
    s.len() >= 6 && s.subrange(s.len() - 6, s.len() as int) == dirty_suffix()
}

/// The descriptor with one trailing dirty suffix removed, where it has one.
pub open spec fn trim_dirty(s: Seq<char>) -> Seq<char> {
    if ends_dirty(s) {
        s.subrange(0, s.len() - 6)
    } else {
        s
    }
}

/// Placeholder for a package identity value that the build did not provide.
pub open spec fn scrape_failure() -> Seq<char> {
    "<failed to scrape>"@
}

/// How a flag reads in an event.
pub open spec fn bool_text(b: bool) -> Seq<char> {
    if b {
        "true"@
    } else {
        "false"@
    }
}

/// A package identity value, or the placeholder where the build gave none.
pub open spec fn scraped_or_placeholder(v: Option<&str>) -> Seq<char> {
    match v {
        Some(s) => s@,
        None => scrape_failure(),
    }
}

/// The text of a flag.
pub fn bool_string(b: bool) -> (r: &'static str)
    ensures
        r@ == bool_text(b),
{
    if b {
        "true"
    } else {
        "false"
    }
}

/// `c` holds the revision split from `git_version` and the package identity, with a
/// placeholder for each value the build did not provide.
pub open spec fn crate_info_from(
    c: CrateInfo,
    git_version: Seq<char>,
    crate_name: Option<&str>,
    crate_version: Option<&str>,
    bin_name: Option<&str>,
) -> bool {
    &&& c.git_commit_hash@ == trim_dirty(git_version)
    &&& c.is_git_repo_dirty == ends_dirty(git_version)
    &&& c.crate_name@ == scraped_or_placeholder(crate_name)
    &&& c.crate_version@ == scraped_or_placeholder(crate_version)
    &&& c.bin_name@ == scraped_or_placeholder(bin_name)
}

/// Identity of the component that asked for the snapshot: its revision and its
/// package.
#[derive(Clone, Debug)]
pub struct CrateInfo {
    /// The commit hash of the source tree, without the dirty suffix
    pub git_commit_hash: String,
    /// Whether the source tree had uncommitted modifications
    pub is_git_repo_dirty: bool,
    /// The name of the binary the component is built into
    pub bin_name: String,
    pub crate_name: String,
    pub crate_version: String,
}

/// Whether the first `n` characters of `s` end in the dirty suffix.
fn prefix_ends_dirty(s: &str, n: usize) -> (r: bool)
    requires
        n <= s@.len(),
    ensures
        r == ends_dirty(s@.subrange(0, n as int)),
{
    if n < 6 {
        return false;
    }
    let r = s.get_char(n - 6) == '-' && s.get_char(n - 5) == 'd' && s.get_char(n - 4) == 'i'
        && s.get_char(n - 3) == 'r' && s.get_char(n - 2) == 't' && s.get_char(n - 1) == 'y';
    proof {
        let p = s@.subrange(0, n as int);
        let tail = p.subrange(p.len() - 6, p.len() as int);
        if r {
            assert(tail =~= dirty_suffix());
        } else {
            if tail == dirty_suffix() {
                assert(tail[0] == '-' && tail[1] == 'd' && tail[2] == 'i');
                assert(tail[3] == 'r' && tail[4] == 't' && tail[5] == 'y');
            }
        }
    }
    r
}

/// Splits a revision descriptor of the form `<hash>[-dirty]` into the hash and
/// whether it carried the dirty suffix; the hash followed by the suffix, where the
/// flag is set, is the descriptor again.
pub fn split_revision(descriptor: &str) -> (r: (String, bool))
    ensures
        r.0@ == trim_dirty(descriptor@),
        r.1 == ends_dirty(descriptor@),
        descriptor@ == r.0@ + (if r.1 {
            dirty_suffix()
        } else {
            Seq::empty()
        }),
{
    let len = descriptor.unicode_len();
    assert(descriptor@.subrange(0, len as int) =~= descriptor@);
    let dirty = prefix_ends_dirty(descriptor, len);
    let end: usize = if dirty {
        len - 6
    } else {
        len
    };
    let hash = descriptor.substring_char(0, end).to_owned();
    proof {
        if dirty {
            assert(descriptor@ =~= hash@ + dirty_suffix());
        } else {
            assert(descriptor@ =~= hash@ + Seq::<char>::empty());
        }
    }
    (hash, dirty)
}

impl CrateInfo {
    /// Builds the record from a revision descriptor and the package identity.
    pub fn new(git_version: &str, crate_name: &str, crate_version: &str, bin_name: &str) -> (r:
        Self)
        ensures
            r.git_commit_hash@ == trim_dirty(git_version@),
            r.is_git_repo_dirty == ends_dirty(git_version@),
            git_version@ == r.git_commit_hash@ + (if r.is_git_repo_dirty {
                dirty_suffix()
            } else {
                Seq::empty()
            }),
            r.crate_name@ == crate_name@,
            r.crate_version@ == crate_version@,
            r.bin_name@ == bin_name@,
    {
        let (hash, dirty) = split_revision(git_version);
        CrateInfo {
            git_commit_hash: hash,
            is_git_repo_dirty: dirty,
            crate_name: crate_name.to_owned(),
            crate_version: crate_version.to_owned(),
            bin_name: bin_name.to_owned(),
        }
    }
}

impl CrateInfo {
    /// Builds the record from a revision descriptor and the package identity values
    /// that the build environment provided; each missing one reads as a placeholder.
    pub fn from_build(
        git_version: &str,
        crate_name: Option<&str>,
        crate_version: Option<&str>,
        bin_name: Option<&str>,
    ) -> (r: Self)
        ensures
            crate_info_from(r, git_version@, crate_name, crate_version, bin_name),
    {
        CrateInfo::new(
            git_version,
            scraped_value(crate_name),
            scraped_value(crate_version),
            scraped_value(bin_name),
        )
    }

    /// The view of the event that describes the component.
    pub open spec fn log_debug_view(&self) -> (Seq<char>, Seq<(Seq<char>, Seq<char>)>) {
        ("Crate information:"@, seq![
            ("git_commit_hash"@, self.git_commit_hash@),
            ("git_repo_dirty"@, bool_text(self.is_git_repo_dirty)),
            ("crate_name"@, self.crate_name@),
            ("crate_version"@, self.crate_version@),
            ("bin_name"@, self.bin_name@),
        ])
    }

    /// The debug event that describes the component.
    pub fn log_debug(&self) -> (r: DebugEvent)
        ensures
            r@ == self.log_debug_view(),
    {
        let mut ev = DebugEvent::new("Crate information:");
        ev.push_field("git_commit_hash", self.git_commit_hash.as_str());
        ev.push_field("git_repo_dirty", bool_string(self.is_git_repo_dirty));
        ev.push_field("crate_name", self.crate_name.as_str());
        ev.push_field("crate_version", self.crate_version.as_str());
        ev.push_field("bin_name", self.bin_name.as_str());
        assert(ev@.1 =~= self.log_debug_view().1);
        ev
    }
}

/// A package identity value, or the placeholder where the build gave none.
fn scraped_value(v: Option<&str>) -> (r: &str)
    ensures
        r@ == scraped_or_placeholder(v),
{
    match v {
        Some(s) => s,
        None => "<failed to scrape>",
    }
}

} // verus!
