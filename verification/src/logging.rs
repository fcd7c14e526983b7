//! Who gets to see a log record: the level of the standard error stream and
//! the sinks, each with a level of its own.

use vstd::prelude::*;

verus! {

/// How grave a log record is.
#[derive(Clone, Copy, Debug, PartialEq, Eq, Structural)]
pub enum Level {
    Error,
    Warn,
    Info,
    Debug,
    Trace,
}

/// Up to which level records are let through.
#[derive(Clone, Copy, Debug, PartialEq, Eq, Structural)]
pub enum LevelFilter {
    Off,
    Error,
    Warn,
    Info,
    Debug,
    Trace,
}

/// How talkative a level is: errors least, traces most.
pub open spec fn verbosity(level: Level) -> nat {
    match level {
        Level::Error => 1,
        Level::Warn => 2,
        Level::Info => 3,
        Level::Debug => 4,
        Level::Trace => 5,
    }
}

/// The verbosity up to which a filter lets records through.
pub open spec fn limit(filter: LevelFilter) -> nat {
    match filter {
        LevelFilter::Off => 0,
        LevelFilter::Error => 1,
        LevelFilter::Warn => 2,
        LevelFilter::Info => 3,
        LevelFilter::Debug => 4,
        LevelFilter::Trace => 5,
    }
}

/// Whether a filter lets a record of the given level through.
pub open spec fn spec_admits(filter: LevelFilter, level: Level) -> bool {
    verbosity(level) <= limit(filter)
}

/// The filter that lets through records up to the given level.
pub open spec fn spec_from_level(level: Level) -> LevelFilter {
    match level {
        Level::Error => LevelFilter::Error,
        Level::Warn => LevelFilter::Warn,
        Level::Info => LevelFilter::Info,
        Level::Debug => LevelFilter::Debug,
        Level::Trace => LevelFilter::Trace,
    }
}

/// How talkative a level is.
fn verbosity_of(level: Level) -> (r: u8)
    ensures
        r == verbosity(level),
{
    match level {
        Level::Error => 1,
        Level::Warn => 2,
        Level::Info => 3,
        Level::Debug => 4,
        Level::Trace => 5,
    }
}

/// The verbosity up to which a filter lets records through.
fn limit_of(filter: LevelFilter) -> (r: u8)
    ensures
        r == limit(filter),
{
    match filter {
        LevelFilter::Off => 0,
        LevelFilter::Error => 1,
        LevelFilter::Warn => 2,
        LevelFilter::Info => 3,
        LevelFilter::Debug => 4,
        LevelFilter::Trace => 5,
    }
}

impl LevelFilter {
    /// The filter that lets through records up to the given level.
    pub fn from_level(level: Level) -> (r: LevelFilter)
        ensures
            r == spec_from_level(level),
            limit(r) == verbosity(level),
    {
        match level {
            Level::Error => LevelFilter::Error,
            Level::Warn => LevelFilter::Warn,
            Level::Info => LevelFilter::Info,
            Level::Debug => LevelFilter::Debug,
            Level::Trace => LevelFilter::Trace,
        }
    }

    /// Whether the filter lets a record of the given level through.
    pub fn admits(self, level: Level) -> (r: bool)
        ensures
            r == spec_admits(self, level),
    {
        verbosity_of(level) <= limit_of(self)
    }
}

/// A receiver of formatted log records.
pub trait LogSink {
    /// The filter of the sink.
    spec fn spec_level_filter(&self) -> LevelFilter;

    /// Takes one formatted record.
    fn write(&self, formatted: &str);

    /// Up to which level the sink wants records.
    fn level_filter(&self) -> (r: LevelFilter)
        ensures
            r == self.spec_level_filter(),
    ;
}

/// A sink that drops what it is given.
#[derive(Clone, Copy, Debug)]
pub struct DiscardSink {
    pub level: LevelFilter,
}

impl LogSink for DiscardSink {
    open spec fn spec_level_filter(&self) -> LevelFilter {
        self.level
    }

    fn write(&self, formatted: &str) {
    }

    fn level_filter(&self) -> (r: LevelFilter) {
        self.level
    }
}

/// The level of the standard error stream and the sinks.
pub struct Logger<S: LogSink> {
    pub stderr_level: LevelFilter,
    pub sinks: Vec<S>,
}

/// The positions among the first `n` sinks of those that want a record of
/// the given level, in rising order.
pub open spec fn receivers<S: LogSink>(sinks: Seq<S>, level: Level, n: nat) -> Seq<usize>
    decreases n,
{
    if n == 0 || n > sinks.len() {
        Seq::empty()
    } else {
        let earlier = receivers(sinks, level, (n - 1) as nat);
        if spec_admits(sinks[n - 1].spec_level_filter(), level) {
            earlier.push((n - 1) as usize)
        } else {
            earlier
        }
    }
}

impl<S: LogSink> Logger<S> {
    /// A logger without sinks whose standard error stream shows records up
    /// to the given level.
    pub fn new(stderr_level: LevelFilter) -> (r: Self)
        ensures
            r.stderr_level == stderr_level,
            r.sinks@.len() == 0,
    {
        Logger { stderr_level, sinks: Vec::new() }
    }

    /// Whether a record of the given level goes to the standard error stream.
    pub fn shows(&self, level: Level) -> (r: bool)
        ensures
            r == spec_admits(self.stderr_level, level),
    {
        self.stderr_level.admits(level)
    }

    /// Hands a formatted record of the given level to every sink that wants
    /// it, in the order of the sinks; returns their positions.
    pub fn publish(&self, level: Level, formatted: &str) -> (written: Vec<usize>)
        ensures
            written@ == receivers(self.sinks@, level, self.sinks@.len()),
    {
        let mut written: Vec<usize> = Vec::new();
        let mut i: usize = 0;
        while i < self.sinks.len()
            invariant
                i <= self.sinks@.len(),
                written@ == receivers(self.sinks@, level, i as nat),
            decreases self.sinks@.len() - i,
        {
            if self.sinks[i].level_filter().admits(level) {
                self.sinks[i].write(formatted);
                written.push(i);
            }
            i = i + 1;
        }
        written
    }
}

/// Sets the level up to which the standard error stream shows records.
pub fn set_level<S: LogSink>(logger: &mut Logger<S>, level: Level)
    ensures
        final(logger).stderr_level == spec_from_level(level),
        final(logger).sinks@ == old(logger).sinks@,
{
    logger.stderr_level = LevelFilter::from_level(level);
}

/// Adds a sink after those that are there.
pub fn add_sink<S: LogSink>(logger: &mut Logger<S>, sink: S)
    ensures
        final(logger).stderr_level == old(logger).stderr_level,
        final(logger).sinks@ == old(logger).sinks@.push(sink),
{
    logger.sinks.push(sink);
}

} // verus!
