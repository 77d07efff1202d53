use vstd::prelude::*;
use vstd::string::*;

use crate::event::DebugEvent;

verus! {

/// The OS description that stands where the OS type or release could not be queried.
pub open spec fn os_failure() -> Seq<char> {
    "<failed to query OS information>"@
}

/// The value of an optional system fact in an event where it could not be queried.
pub open spec fn get_failure() -> Seq<char> {
    "<failed to get>"@
}

/// The OS description: type and release separated by a space, or the placeholder
/// where either is missing.
pub open spec fn os_text(os_type: Option<String>, os_release: Option<String>) -> Seq<char> {
    match (os_type, os_release) {
        (Some(t), Some(r)) => t@ + " "@ + r@,
        _ => os_failure(),
    }
}

/// How an optional system fact reads in an event.
pub open spec fn optional_text(v: Option<String>) -> Seq<char> {
    match v {
        Some(s) => s@,
        None => get_failure(),
    }
}

/// `s` holds what the system queries returned, `None` standing for a failed query.
pub open spec fn system_info_from(
    s: SystemInfo,
    hostname: Option<String>,
    os_type: Option<String>,
    os_release: Option<String>,
    linux_distro: Option<String>,
    cpu_vendor: Option<String>,
    cpu_brand_string: Option<String>,
) -> bool {
    &&& s.hostname == hostname
    &&& s.os@ == os_text(os_type, os_release)
    &&& s.linux_distro == linux_distro
    &&& s.cpu_vendor == cpu_vendor
    &&& s.cpu_brand_string == cpu_brand_string
}

/// Facts about the system the program runs on.
#[derive(Clone, Debug)]
pub struct SystemInfo {
    pub hostname: Option<String>,
    pub os: String,
    pub linux_distro: Option<String>,
    pub cpu_vendor: Option<String>,
    pub cpu_brand_string: Option<String>,
}

/// How an optional system fact reads in an event.
fn optional_str(v: &Option<String>) -> (r: &str)
    ensures
        r@ == optional_text(*v),
{
    match v {
        Some(s) => s.as_str(),
        None => "<failed to get>",
    }
}

impl SystemInfo {
    /// Assembles the record from what each system query returned, `None` where a
    /// query failed; a failed OS type or release query leaves the OS description as
    /// a placeholder.
    pub fn gather(
        hostname: Option<String>,
        os_type: Option<String>,
        os_release: Option<String>,
        linux_distro: Option<String>,
        cpu_vendor: Option<String>,
        cpu_brand_string: Option<String>,
    ) -> (r: Self)
        ensures
            system_info_from(r, hostname, os_type, os_release, linux_distro, cpu_vendor, cpu_brand_string),
    {
        let os = match (os_type, os_release) {
            (Some(t), Some(rel)) => {
                let mut s = t;
                s.append(" ");
                s.append(rel.as_str());
                s
            },
            _ => "<failed to query OS information>".to_owned(),
        };
        SystemInfo { hostname, os, linux_distro, cpu_vendor, cpu_brand_string }
    }

    /// The view of the event that describes the system.
    pub open spec fn log_debug_view(&self) -> (Seq<char>, Seq<(Seq<char>, Seq<char>)>) {
        ("System information:"@, seq![
            ("hostname"@, optional_text(self.hostname)),
            ("os"@, self.os@),
            ("linux_distro"@, optional_text(self.linux_distro)),
            ("cpu_vendor"@, optional_text(self.cpu_vendor)),
            ("cpu_brand_string"@, optional_text(self.cpu_brand_string)),
        ])
    }

    /// The debug event that describes the system; each fact that could not be
    /// queried reads as a placeholder.
    pub fn log_debug(&self) -> (r: DebugEvent)
        ensures
            r@ == self.log_debug_view(),
    {
        let mut ev = DebugEvent::new("System information:");
        ev.push_field("hostname", optional_str(&self.hostname));
        ev.push_field("os", self.os.as_str());
        ev.push_field("linux_distro", optional_str(&self.linux_distro));
        ev.push_field("cpu_vendor", optional_str(&self.cpu_vendor));
        ev.push_field("cpu_brand_string", optional_str(&self.cpu_brand_string));
        assert(ev@.1 =~= self.log_debug_view().1);
        ev
    }
}

} // verus!
