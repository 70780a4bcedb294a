//! The server's settings and what they default to.

use vstd::prelude::*;
use crate::text::{parse_u16, spelled_u16, text_view};

verus! {

/// The path that takes submissions.
pub const JOIN_WAITLIST_PATH: &'static str = "/api/join-waitlist";

/// The port to listen on where none is configured.
pub const DEFAULT_PORT: u16 = 3000;

/// Where the static site lies where no directory is configured.
pub const DEFAULT_STATIC_DIR: &'static str = "../dist";

/// What is logged where no filter is configured.
pub const DEFAULT_LOG_FILTER: &'static str = "server=debug,tower_http=debug";

/// The port that a setting names: the default where there is no setting,
/// none where the setting spells no port.
pub open spec fn port_of(setting: Option<Seq<char>>) -> Option<u16> {
    match setting {
        Some(t) => spelled_u16(t),
        None => Some(DEFAULT_PORT),
    }
}

/// A setting, or the fallback where there is none.
pub open spec fn or_default(setting: Option<Seq<char>>, fallback: Seq<char>) -> Seq<char> {
    match setting {
        Some(t) => t,
        None => fallback,
    }
}

/// The port to listen on.
pub fn listen_port(configured: Option<&str>) -> (port: Option<u16>)
    ensures
        port == port_of(text_view(configured)),
{
    match configured {
        Some(t) => parse_u16(t),
        None => Some(DEFAULT_PORT),
    }
}

/// The directory of the static site.
pub fn static_dir(configured: Option<&str>) -> (dir: &str)
    ensures
        dir@ == or_default(text_view(configured), DEFAULT_STATIC_DIR@),
{
    match configured {
        Some(t) => t,
        None => DEFAULT_STATIC_DIR,
    }
}

/// The log filter.
pub fn log_filter(configured: Option<&str>) -> (filter: &str)
    ensures
        filter@ == or_default(text_view(configured), DEFAULT_LOG_FILTER@),
{
    match configured {
        Some(t) => t,
        None => DEFAULT_LOG_FILTER,
    }
}

} // verus!
