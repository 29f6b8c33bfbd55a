//! The settings of a run, with their defaults.

use vstd::prelude::*;

verus! {

/// The number of tabs where none is given.
pub const DEFAULT_TABS: usize = 4;

/// The viewport width where none is given.
pub const DEFAULT_WIDTH: u32 = 1440;

/// The viewport height where none is given.
pub const DEFAULT_HEIGHT: u32 = 900;

/// What a run is configured with.
#[derive(Debug, PartialEq, Eq)]
pub struct Settings {
    /// The directory that the screenshots go to.
    pub outdir: String,
    /// The number of tabs, and so the greatest number of chunks.
    pub tabs: usize,
    pub width: u32,
    pub height: u32,
    /// The time allowed to each reachability probe, in seconds.
    pub timeout_secs: u64,
    /// Whether success lines are held back.
    pub silent: bool,
}

/// The output directory where none is given.
pub fn default_outdir() -> (dir: String)
    ensures
        dir@ == "hxnshots"@,
{
    String::from_str("hxnshots")
}

impl Settings {
    /// Fills in the defaults: directory `hxnshots`, 4 tabs, a viewport of
    /// 1440 by 900.
    pub fn resolve(
        outdir: Option<String>,
        tabs: Option<usize>,
        width: Option<u32>,
        height: Option<u32>,
        timeout_secs: u64,
        silent: bool,
    ) -> (s: Settings)
        ensures
            s.outdir@ == match outdir {
                Some(d) => d@,
                None => "hxnshots"@,
            },
            s.tabs == match tabs {
                Some(n) => n,
                None => DEFAULT_TABS,
            },
            s.width == match width {
                Some(w) => w,
                None => DEFAULT_WIDTH,
            },
            s.height == match height {
                Some(h) => h,
                None => DEFAULT_HEIGHT,
            },
            s.timeout_secs == timeout_secs,
            s.silent == silent,
    {
        Settings {
            outdir: match outdir {
                Some(d) => d,
                None => default_outdir(),
            },
            tabs: match tabs {
                Some(n) => n,
                None => DEFAULT_TABS,
            },
            width: match width {
                Some(w) => w,
                None => DEFAULT_WIDTH,
            },
            height: match height {
                Some(h) => h,
                None => DEFAULT_HEIGHT,
            },
            timeout_secs,
            silent,
        }
    }
}

} // verus!
