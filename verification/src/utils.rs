//! The verbosity of the log.

use vstd::prelude::*;

verus! {

/// The most verbose kind of message that is logged.
#[derive(Debug, Clone, Copy, PartialEq, Eq, Structural)]
pub enum LevelFilter {
    Error,
    Warn,
    Info,
    Debug,
    Trace,
}

/// The filter for a configured level: -2 is errors only, -1 warnings, 1
/// debug, 2 trace, and every other number the usual level.
pub open spec fn levelfilter_of(num: i32) -> LevelFilter {
    if num == -2 {
        LevelFilter::Error
    } else if num == -1 {
        LevelFilter::Warn
    } else if num == 1 {
        LevelFilter::Debug
    } else if num == 2 {
        LevelFilter::Trace
    } else {
        LevelFilter::Info
    }
}

/// The filter for a configured level.
pub fn get_levelfilter(num: i32) -> (filter: LevelFilter)
    ensures
        filter == levelfilter_of(num),
{
    match num {
        -2 => LevelFilter::Error,
        -1 => LevelFilter::Warn,
        1 => LevelFilter::Debug,
        2 => LevelFilter::Trace,
        _ => LevelFilter::Info,
    }
}

} // verus!
