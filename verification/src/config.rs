//! The routing configuration: one stream per severity level, and one
//! threshold for all of them.

use crate::level::{Level, LevelFilter};
use vstd::prelude::*;

verus! {

/// One of the two diagnostic streams of the device.
#[derive(Clone, Copy, Debug, PartialEq, Eq, Hash, Structural)]
pub enum OutputStream {
    /// The standard output stream, the primary channel.
    StdOut,
    /// The standard error stream, the secondary channel and the default.
    StdErr,
}

/// Which stream each level is written to, and which levels are written at all.
///
/// A configuration is a value: every builder step takes one and returns the
/// next. What it holds is read through `stream_of` and `threshold`, and two
/// configurations that agree on both are the same configuration.
#[derive(Clone, Copy, Debug, PartialEq, Eq, Structural)]
pub struct PspLoggerConfig {
    error_stream: OutputStream,
    warn_stream: OutputStream,
    info_stream: OutputStream,
    debug_stream: OutputStream,
    trace_stream: OutputStream,
    level_filter: LevelFilter,
}

impl PspLoggerConfig {
    /// The stream that events of `level` are routed to.
    pub closed spec fn stream_of(self, level: Level) -> OutputStream {
        match level {
            Level::Error => self.error_stream,
            Level::Warn => self.warn_stream,
            Level::Info => self.info_stream,
            Level::Debug => self.debug_stream,
            Level::Trace => self.trace_stream,
        }
    }

    /// The global threshold.
    pub closed spec fn threshold(self) -> LevelFilter {
        self.level_filter
    }

    /// This configuration with `level` routed to `stream` and nothing else
    /// touched: what each `with_*_stream` step computes for its own level.
    pub closed spec fn with_stream(self, level: Level, stream: OutputStream) -> Self {
        match level {
            Level::Error => PspLoggerConfig { error_stream: stream, ..self },
            Level::Warn => PspLoggerConfig { warn_stream: stream, ..self },
            Level::Info => PspLoggerConfig { info_stream: stream, ..self },
            Level::Debug => PspLoggerConfig { debug_stream: stream, ..self },
            Level::Trace => PspLoggerConfig { trace_stream: stream, ..self },
        }
    }

    /// Whether events of `level` pass the threshold.
    pub open spec fn enables(self, level: Level) -> bool {
        level.rank() <= self.threshold().rank()
    }

    /// A configuration with the given threshold and every level routed to
    /// `StdErr`.
    pub fn new(level_filter: LevelFilter) -> (r: Self)
        ensures
            r.threshold() == level_filter,
            forall|level: Level| #[trigger] r.stream_of(level) == OutputStream::StdErr,
    {
        PspLoggerConfig {
            error_stream: OutputStream::StdErr,
            warn_stream: OutputStream::StdErr,
            info_stream: OutputStream::StdErr,
            debug_stream: OutputStream::StdErr,
            trace_stream: OutputStream::StdErr,
            level_filter,
        }
    }

    /// Routes `Level::Error` to `stream` and leaves the rest as it is.
    pub fn with_error_stream(self, stream: OutputStream) -> (r: Self)
        ensures
            r == self.with_stream(Level::Error, stream),
            r.threshold() == self.threshold(),
            forall|level: Level| #[trigger]
                r.stream_of(level) == if level == Level::Error {
                    stream
                } else {
                    self.stream_of(level)
                },
    {
        let mut next = self;
        next.error_stream = stream;
        next
    }

    /// Routes `Level::Warn` to `stream` and leaves the rest as it is.
    pub fn with_warn_stream(self, stream: OutputStream) -> (r: Self)
        ensures
            r == self.with_stream(Level::Warn, stream),
            r.threshold() == self.threshold(),
            forall|level: Level| #[trigger]
                r.stream_of(level) == if level == Level::Warn {
                    stream
                } else {
                    self.stream_of(level)
                },
    {
        let mut next = self;
        next.warn_stream = stream;
        next
    }

    /// Routes `Level::Info` to `stream` and leaves the rest as it is.
    pub fn with_info_stream(self, stream: OutputStream) -> (r: Self)
        ensures
            r == self.with_stream(Level::Info, stream),
            r.threshold() == self.threshold(),
            forall|level: Level| #[trigger]
                r.stream_of(level) == if level == Level::Info {
                    stream
                } else {
                    self.stream_of(level)
                },
    {
        let mut next = self;
        next.info_stream = stream;
        next
    }

    /// Routes `Level::Debug` to `stream` and leaves the rest as it is.
    pub fn with_debug_stream(self, stream: OutputStream) -> (r: Self)
        ensures
            r == self.with_stream(Level::Debug, stream),
            r.threshold() == self.threshold(),
            forall|level: Level| #[trigger]
                r.stream_of(level) == if level == Level::Debug {
                    stream
                } else {
                    self.stream_of(level)
                },
    {
        let mut next = self;
        next.debug_stream = stream;
        next
    }

    /// Routes `Level::Trace` to `stream` and leaves the rest as it is.
    pub fn with_trace_stream(self, stream: OutputStream) -> (r: Self)
        ensures
            r == self.with_stream(Level::Trace, stream),
            r.threshold() == self.threshold(),
            forall|level: Level| #[trigger]
                r.stream_of(level) == if level == Level::Trace {
                    stream
                } else {
                    self.stream_of(level)
                },
    {
        let mut next = self;
        next.trace_stream = stream;
        next
    }

    /// The stream that events of `level` are routed to.
    pub fn get_stream(&self, level: Level) -> (r: OutputStream)
        ensures
            r == self.stream_of(level),
    {
        match level {
            Level::Error => self.error_stream,
            Level::Warn => self.warn_stream,
            Level::Info => self.info_stream,
            Level::Debug => self.debug_stream,
            Level::Trace => self.trace_stream,
        }
    }

    /// The global threshold.
    pub fn level_filter(&self) -> (r: LevelFilter)
        ensures
            r == self.threshold(),
    {
        self.level_filter
    }

    /// Whether events of `level` pass the threshold.
    pub fn is_enabled(&self, level: Level) -> (r: bool)
        ensures
            r == (level.rank() <= self.threshold().rank()),
    {
        self.level_filter.allows(level)
    }
}

/// Two configurations with the same threshold and the same stream for every
/// level are equal: `stream_of` and `threshold` say all there is to a
/// configuration.
pub proof fn lemma_config_extensional(a: PspLoggerConfig, b: PspLoggerConfig)
    requires
        a.threshold() == b.threshold(),
        forall|level: Level| a.stream_of(level) == b.stream_of(level),
    ensures
        a == b,
{
    assert(a.stream_of(Level::Error) == b.stream_of(Level::Error));
    assert(a.stream_of(Level::Warn) == b.stream_of(Level::Warn));
    assert(a.stream_of(Level::Info) == b.stream_of(Level::Info));
    assert(a.stream_of(Level::Debug) == b.stream_of(Level::Debug));
    assert(a.stream_of(Level::Trace) == b.stream_of(Level::Trace));
}

/// Overriding the stream of one level changes the route of that level alone:
/// every other level keeps its stream, and the threshold stays.
pub proof fn lemma_with_stream_changes_one_level(
    config: PspLoggerConfig,
    level: Level,
    stream: OutputStream,
)
    ensures
        config.with_stream(level, stream).stream_of(level) == stream,
        forall|other: Level|
            other != level ==> #[trigger] config.with_stream(level, stream).stream_of(other)
                == config.stream_of(other),
        config.with_stream(level, stream).threshold() == config.threshold(),
        forall|probe: Level|
            config.with_stream(level, stream).enables(probe) == config.enables(probe),
{
}

/// Overriding a level twice with the same stream gives the same configuration
/// as overriding it once.
pub proof fn lemma_with_stream_idempotent(
    config: PspLoggerConfig,
    level: Level,
    stream: OutputStream,
)
    ensures
        config.with_stream(level, stream).with_stream(level, stream) == config.with_stream(
            level,
            stream,
        ),
{
}

} // verus!
