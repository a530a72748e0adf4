use vstd::prelude::*;

verus! {

/// How much the application logs, from the most severe messages only to all
/// of them, or nothing.
#[derive(Debug, Clone, Copy, PartialEq, Eq, PartialOrd, Ord)]
pub enum LogLevel {
    Error,
    Warn,
    Info,
    Debug,
    Trace,
    Off,
}

} // verus!
