//! How a log record is presented: its label and colour, and whether it is
//! shown at all.

use vstd::prelude::*;

verus! {

/// The severity of a record, most severe first.
#[derive(Debug, Clone, Copy, PartialEq, Eq, Structural)]
pub enum Severity {
    Error,
    Warn,
    Info,
    Debug,
    Trace,
}

/// The most verbose severity shown, or nothing at all.
#[derive(Debug, Clone, Copy, PartialEq, Eq, Structural)]
pub enum LevelFilter {
    Off,
    Error,
    Warn,
    Info,
    Debug,
    Trace,
}

/// The colour a label is printed in on a terminal.
#[derive(Debug, Clone, Copy, PartialEq, Eq, Structural)]
pub enum Color {
    Red,
    Yellow,
    Green,
    Blue,
    White,
}

/// 1 for the most severe, 5 for the least.
pub open spec fn severity_rank(s: Severity) -> int {
    match s {
        Severity::Error => 1,
        Severity::Warn => 2,
        Severity::Info => 3,
        Severity::Debug => 4,
        Severity::Trace => 5,
    }
}

/// 0 when nothing is shown, else the rank of the least severe shown.
pub open spec fn filter_rank(f: LevelFilter) -> int {
    match f {
        LevelFilter::Off => 0,
        LevelFilter::Error => 1,
        LevelFilter::Warn => 2,
        LevelFilter::Info => 3,
        LevelFilter::Debug => 4,
        LevelFilter::Trace => 5,
    }
}

fn rank(s: Severity) -> (r: u8)
    ensures
        r == severity_rank(s),
{
    match s {
        Severity::Error => 1,
        Severity::Warn => 2,
        Severity::Info => 3,
        Severity::Debug => 4,
        Severity::Trace => 5,
    }
}

fn max_rank(f: LevelFilter) -> (r: u8)
    ensures
        r == filter_rank(f),
{
    match f {
        LevelFilter::Off => 0,
        LevelFilter::Error => 1,
        LevelFilter::Warn => 2,
        LevelFilter::Info => 3,
        LevelFilter::Debug => 4,
        LevelFilter::Trace => 5,
    }
}

/// Whether a record of `level` is shown under `max`.
pub fn enabled(level: Severity, max: LevelFilter) -> (r: bool)
    ensures
        r == (severity_rank(level) <= filter_rank(max)),
{
    rank(level) <= max_rank(max)
}

impl Severity {
    /// The word that opens a record.
    pub fn label(&self) -> (r: &'static str)
        ensures
            r@ == match *self {
                Severity::Error => "error"@,
                Severity::Warn => "warning"@,
                Severity::Info => "info"@,
                Severity::Debug => "debug"@,
                Severity::Trace => "trace"@,
            },
    {
        match self {
            Severity::Error => "error",
            Severity::Warn => "warning",
            Severity::Info => "info",
            Severity::Debug => "debug",
            Severity::Trace => "trace",
        }
    }

    /// The colour of the label.
    pub fn color(&self) -> (r: Color)
        ensures
            r == match *self {
                Severity::Error => Color::Red,
                Severity::Warn => Color::Yellow,
                Severity::Info => Color::Green,
                Severity::Debug => Color::Blue,
                Severity::Trace => Color::White,
            },
    {
        match self {
            Severity::Error => Color::Red,
            Severity::Warn => Color::Yellow,
            Severity::Info => Color::Green,
            Severity::Debug => Color::Blue,
            Severity::Trace => Color::White,
        }
    }
}

} // verus!
