//! A bounded log-record buffer used as a logging sink.
//!
//! Records accumulate in a [`LogBuffer`]: a circular queue with an explicit
//! bound.  Pushing onto a full buffer evicts the oldest record, so the buffer
//! always keeps the most recent records, at most its bound of them.  The sink
//! is an explicitly constructed value owned by the application root and passed
//! by reference to whoever logs; registration with a logging framework, and
//! any global that holds the sink, are the caller's concern.

use std::collections::VecDeque;
use vstd::prelude::*;

verus! {

/// The importance of a log record, from most severe to most verbose.
#[derive(Clone, Copy, PartialEq, Eq, Structural, Debug)]
pub enum Level {
    /// A failure.
    Error,
    /// A hazard.
    Warn,
    /// Routine information.
    Info,
    /// Diagnostic detail.
    Debug,
    /// The most verbose tracing.
    Trace,
}

/// The rank of a level: lower means more severe.
pub open spec fn level_rank(l: Level) -> int {
    match l {
        Level::Error => 1,
        Level::Warn => 2,
        Level::Info => 3,
        Level::Debug => 4,
        Level::Trace => 5,
    }
}

impl Level {
    /// The rank of this level as a machine integer: lower means more severe.
    pub fn rank(&self) -> (r: u8)
        ensures
            r == level_rank(*self),
    {
        match self {
            Level::Error => 1,
            Level::Warn => 2,
            Level::Info => 3,
            Level::Debug => 4,
            Level::Trace => 5,
        }
    }
}

/// A log record: a level, the time it was logged, and the message.
pub struct Record {
    /// Log level used for this record.
    pub level: Level,
    /// Time this message was logged, as microseconds since the Unix epoch.
    pub time: i64,
    /// Message content.
    pub message: String,
}

/// The mathematical value of a [`Record`].
pub ghost struct RecordModel {
    /// Log level used for the record.
    pub level: Level,
    /// Time the message was logged, as microseconds since the Unix epoch.
    pub time: int,
    /// Message content.
    pub message: Seq<char>,
}

impl View for Record {
    type V = RecordModel;

    open spec fn view(&self) -> RecordModel {
        RecordModel { level: self.level, time: self.time as int, message: self.message@ }
    }
}

/// A sequence with its first element dropped; the empty sequence unchanged.
pub open spec fn evicted(s: Seq<RecordModel>) -> Seq<RecordModel> {
    if s.len() == 0 {
        s
    } else {
        s.subrange(1, s.len() as int)
    }
}

/// A bounded circular buffer of log records.
///
/// Holds at most its bound of records; pushing onto a full buffer first
/// evicts the oldest record.  A push onto a buffer with bound zero grows the
/// bound to one rather than losing the record.
pub struct LogBuffer {
    records: VecDeque<Record>,
    cap: usize,
}

impl LogBuffer {
    /// The records currently held, oldest first.
    pub closed spec fn contents(self) -> Seq<RecordModel> {
        self.records@.map(|i: int, r: Record| r@)
    }

    /// The bound: how many records the buffer keeps before evicting.
    pub closed spec fn capacity(self) -> int {
        self.cap as int
    }

    /// Well-formedness: the buffer never holds more records than its bound.
    pub closed spec fn wf(self) -> bool {
        self.records@.len() <= self.cap
    }

    /// An empty buffer with bound zero.
    pub fn new() -> (r: LogBuffer)
        ensures
            r.wf(),
            r.contents() == Seq::<RecordModel>::empty(),
            r.capacity() == 0,
    {
        let r = LogBuffer { records: VecDeque::new(), cap: 0 };
        proof {
            assert(r.contents() =~= Seq::<RecordModel>::empty());
        }
        r
    }

    /// How many records the buffer currently holds.
    pub fn record_count(&self) -> (n: usize)
        ensures
            n == self.contents().len(),
    {
        self.records.len()
    }

    /// The buffer's bound.
    pub fn record_limit(&self) -> (n: usize)
        ensures
            n == self.capacity(),
    {
        self.cap
    }

    /// The record at position `i`, oldest first.
    pub fn record_at(&self, i: usize) -> (r: &Record)
        requires
            i < self.contents().len(),
        ensures
            r@ == self.contents()[i as int],
    {
        &self.records[i]
    }

    /// Raise the bound so that there is room for `n` records beyond those
    /// already held.  Never lowers the bound, and keeps every record.
    pub fn reserve(&mut self, n: usize)
        requires
            old(self).wf(),
            old(self).contents().len() + n <= usize::MAX,
        ensures
            final(self).wf(),
            final(self).contents() == old(self).contents(),
            final(self).capacity() == (if old(self).capacity() >= old(self).contents().len() + n {
                old(self).capacity()
            } else {
                (old(self).contents().len() + n) as int
            }),
    {
        let needed = self.records.len() + n;
        if self.cap < needed {
            self.cap = needed;
        }
        self.records.reserve(n);
    }

    /// Append a record.  A full buffer first evicts its oldest record; a
    /// buffer with bound zero instead grows its bound to one.
    pub fn push(&mut self, record: Record)
        requires
            old(self).wf(),
        ensures
            final(self).wf(),
            final(self).contents() == (if old(self).contents().len() < old(self).capacity() {
                old(self).contents()
            } else {
                evicted(old(self).contents())
            }).push(record@),
            final(self).capacity() == (if old(self).capacity() == 0 {
                1int
            } else {
                old(self).capacity()
            }),
    {
        if self.records.len() == self.cap {
            if self.records.len() > 0 {
                self.records.pop_front();
            }
        }
        self.records.push_back(record);
        if self.cap < self.records.len() {
            self.cap = self.records.len();
        }
        proof {
            assert(self.contents() =~= (if old(self).contents().len() < old(self).capacity() {
                old(self).contents()
            } else {
                evicted(old(self).contents())
            }).push(record@));
        }
    }

    /// Record `message` at `level`, stamped with the given time.
    pub fn log_at(&mut self, level: Level, time: i64, message: String)
        requires
            old(self).wf(),
        ensures
            final(self).wf(),
            final(self).contents() == (if old(self).contents().len() < old(self).capacity() {
                old(self).contents()
            } else {
                evicted(old(self).contents())
            }).push((RecordModel { level: level, time: time as int, message: message@ })),
            final(self).capacity() == (if old(self).capacity() == 0 {
                1int
            } else {
                old(self).capacity()
            }),
    {
        self.push(Record { level, time, message });
    }
}

/// Relies on chrono::Utc::now, read out through chrono's timestamp_micros:
/// the current wall-clock time.  Nothing is assumed of the value.
#[verifier::external_body]
fn now_timestamp_micros() -> i64 {
    chrono::Utc::now().timestamp_micros()
}

/// Record `message` at `level` in the given log buffer, stamped with the
/// current time.  A full buffer first evicts its oldest record.
pub fn log(sink: &mut LogBuffer, level: Level, message: String)
    requires
        old(sink).wf(),
    ensures
        final(sink).wf(),
        final(sink).contents().len() >= 1,
        final(sink).contents().last().level == level,
        final(sink).contents().last().message == message@,
        final(sink).contents().drop_last() == (if old(sink).contents().len()
            < old(sink).capacity() {
            old(sink).contents()
        } else {
            evicted(old(sink).contents())
        }),
        final(sink).capacity() == (if old(sink).capacity() == 0 {
            1int
        } else {
            old(sink).capacity()
        }),
{
    let time = now_timestamp_micros();
    sink.log_at(level, time, message);
    proof {
        assert(sink.contents().drop_last() =~= (if old(sink).contents().len() < old(
            sink,
        ).capacity() {
            old(sink).contents()
        } else {
            evicted(old(sink).contents())
        }));
    }
}

/// A logger that stores records in a log buffer, filtered by a level.
pub struct CursiveLogger {
    level: Level,
}

impl CursiveLogger {
    /// The most verbose level this logger accepts.
    pub closed spec fn spec_level(self) -> Level {
        self.level
    }

    /// The most verbose level this logger accepts.
    pub fn level(&self) -> (r: Level)
        ensures
            r == self.spec_level(),
    {
        self.level
    }

    /// Whether a record at `metadata_level` passes this logger's filter:
    /// it does when it is at least as severe as the configured level.
    pub fn enabled(&self, metadata_level: Level) -> (r: bool)
        ensures
            r == (level_rank(metadata_level) <= level_rank(self.spec_level())),
    {
        metadata_level.rank() <= self.level.rank()
    }

    /// Record `message` at `level` in the given log buffer, stamped with the
    /// current time.
    pub fn log(&self, sink: &mut LogBuffer, level: Level, message: String)
        requires
            old(sink).wf(),
        ensures
            final(sink).wf(),
            final(sink).contents().len() >= 1,
            final(sink).contents().last().level == level,
            final(sink).contents().last().message == message@,
            final(sink).contents().drop_last() == (if old(sink).contents().len()
                < old(sink).capacity() {
                old(sink).contents()
            } else {
                evicted(old(sink).contents())
            }),
            final(sink).capacity() == (if old(sink).capacity() == 0 {
                1int
            } else {
                old(sink).capacity()
            }),
    {
        log(sink, level, message);
    }

    /// Nothing is buffered outside the sink, so there is nothing to flush.
    pub fn flush(&self) {
    }
}

impl Default for CursiveLogger {
    /// A logger that accepts everything up to the debug level.
    fn default() -> (r: CursiveLogger)
        ensures
            r.spec_level() == Level::Debug,
    {
        CursiveLogger { level: Level::Debug }
    }
}

/// Builder helper type for building a logger.
pub struct Builder {
    level: Level,
}

impl Builder {
    /// The level the built logger will accept up to.
    pub closed spec fn spec_level(self) -> Level {
        self.level
    }

    /// Set the level to log with.
    pub fn level(self, level: Level) -> (r: Builder)
        ensures
            r.spec_level() == level,
    {
        Builder { level }
    }

    /// Build the logger with the chosen level.
    pub fn init(self) -> (r: CursiveLogger)
        ensures
            r.spec_level() == self.spec_level(),
    {
        CursiveLogger { level: self.level }
    }
}

impl Default for Builder {
    /// A builder whose logger accepts everything up to the debug level.
    fn default() -> (r: Builder)
        ensures
            r.spec_level() == Level::Debug,
    {
        Builder { level: Level::Debug }
    }
}

/// Create the log sink, with room reserved for 1000 records.  Registering a
/// logger with a logging framework is the caller's concern.
pub fn init() -> (r: LogBuffer)
    ensures
        r.wf(),
        r.contents() == Seq::<RecordModel>::empty(),
        r.capacity() == 1000,
{
    let mut buf = LogBuffer::new();
    buf.reserve(1000);
    buf
}

/// Return a logger that stores records in a log buffer, and make room in the
/// given sink for 1000 more records.
pub fn get_logger(sink: &mut LogBuffer) -> (r: CursiveLogger)
    requires
        old(sink).wf(),
        old(sink).contents().len() + 1000 <= usize::MAX,
    ensures
        final(sink).wf(),
        final(sink).contents() == old(sink).contents(),
        final(sink).capacity() == (if old(sink).capacity() >= old(sink).contents().len() + 1000 {
            old(sink).capacity()
        } else {
            (old(sink).contents().len() + 1000) as int
        }),
        r.spec_level() == Level::Debug,
{
    sink.reserve(1000);
    CursiveLogger::default()
}

/// Make room in the given sink for `n` more records beyond those already
/// held.  Never lowers the bound, and keeps every record.
pub fn reserve_logs(sink: &mut LogBuffer, n: usize)
    requires
        old(sink).wf(),
        old(sink).contents().len() + n <= usize::MAX,
    ensures
        final(sink).wf(),
        final(sink).contents() == old(sink).contents(),
        final(sink).capacity() == (if old(sink).capacity() >= old(sink).contents().len() + n {
            old(sink).capacity()
        } else {
            (old(sink).contents().len() + n) as int
        }),
{
    sink.reserve(n);
}

} // verus!
