//! The callback pipeline that runs inside every process the hook fires in:
//! classify the event, resolve its origin, append one record to the
//! per-process log sink, and always forward the event onward.
//!
//! The operating-system queries themselves (opening the thread and process,
//! fetching the image name, opening and appending to the log file) are
//! performed by the surrounding binary; this module takes their raw results
//! as plain values and decides, with exact contracts, what record or
//! diagnostic each invocation produces.

use vstd::prelude::*;
use vstd::string::StringExecFns;
use crate::hook_type::HookType;
use crate::record::{format_record, record_line};

verus! {

/// A failure while logging one event inside a foreign process. Always
/// recovered locally: the event's logging is abandoned, one diagnostic is
/// emitted through the debug-output channel, and the event is still
/// forwarded — it never propagates into the hook chain.
#[derive(Clone, Copy, Debug, PartialEq, Eq, Structural)]
pub enum RuntimeQueryError {
    LockFailed,
    OpenFileFailed,
    OpenThreadFailed,
    OpenProcessFailed,
    QueryNameFailed,
    WriteFailed,
}

/// The description a failure carries in its diagnostic.
pub open spec fn spec_describe(e: RuntimeQueryError) -> Seq<char> {
    match e {
        RuntimeQueryError::LockFailed => "failed to lock mutex"@,
        RuntimeQueryError::OpenFileFailed => "failed to open file for writing"@,
        RuntimeQueryError::OpenThreadFailed => "failed to open thread"@,
        RuntimeQueryError::OpenProcessFailed => "failed to open process"@,
        RuntimeQueryError::QueryNameFailed => "failed to get process name"@,
        RuntimeQueryError::WriteFailed => "failed to write to file"@,
    }
}

impl RuntimeQueryError {
    /// The description of this failure.
    pub fn describe(&self) -> (r: &'static str)
        ensures
            r@ == spec_describe(*self),
    {
        match self {
            RuntimeQueryError::LockFailed => "failed to lock mutex",
            RuntimeQueryError::OpenFileFailed => "failed to open file for writing",
            RuntimeQueryError::OpenThreadFailed => "failed to open thread",
            RuntimeQueryError::OpenProcessFailed => "failed to open process",
            RuntimeQueryError::QueryNameFailed => "failed to get process name",
            RuntimeQueryError::WriteFailed => "failed to write to file",
        }
    }
}

/// The one diagnostic line a failed invocation emits.
pub open spec fn diagnostic_line(e: RuntimeQueryError) -> Seq<char> {
    "an error occurred: "@ + spec_describe(e)
}

/// Formats the diagnostic that a failure is reported with.
pub fn diagnostic_message(e: RuntimeQueryError) -> (m: String)
    ensures
        m@ == diagnostic_line(e),
{
    let mut m = String::from_str("an error occurred: ");
    m.append(e.describe());
    proof {
        assert(m@ =~= diagnostic_line(e));
    }
    m
}

/// What the decoding of an image-name buffer yields. Relied on below:
/// the decoding is a function of the bytes alone.
pub uninterp spec fn lossy_utf8(bytes: Seq<u8>) -> Seq<char>;

/// Relies on `String::from_utf8_lossy`: its result depends only on the
/// bytes, valid UTF-8 is decoded to its characters, and so seven-bit bytes
/// decode each to its own character.
#[verifier::external_body]
fn lossy_decode(bytes: &Vec<u8>) -> (r: String)
    ensures
        r@ == lossy_utf8(bytes@),
        (forall|i: int| 0 <= i < bytes@.len() ==> bytes@[i] < 0x80) ==> r@ == bytes@.map_values(
            |b: u8| b as char,
        ),
{
    String::from_utf8_lossy(bytes.as_slice()).into_owned()
}

/// The raw values the origin queries return for one event: the thread id
/// the event carried, the process id the thread belongs to, and the
/// image-name buffer with the length the query reported.
pub struct RawOrigin {
    pub thread_id: u32,
    pub process_id: u32,
    pub name_buffer: Vec<u8>,
    pub name_len: u32,
}

/// The identity an event is logged under: process id, process image name,
/// thread id, derived per invocation from the event's thread id.
#[derive(Debug)]
pub struct OriginIdentity {
    pub process_id: u32,
    pub process_name: String,
    pub thread_id: u32,
}

/// Whether an image-name query result is usable: a zero length is the
/// query's own failure report, and the length never exceeds the buffer.
pub open spec fn name_len_valid(raw: RawOrigin) -> bool {
    0 < raw.name_len && raw.name_len <= raw.name_buffer@.len()
}

/// The origin an event resolves to, or the failure that stops it, as a
/// function of the raw query results.
pub open spec fn spec_origin_of(queries: Result<RawOrigin, RuntimeQueryError>) -> Result<
    (u32, Seq<char>, u32),
    RuntimeQueryError,
> {
    match queries {
        Result::Err(e) => Result::Err(e),
        Result::Ok(raw) => if name_len_valid(raw) {
            Result::Ok(
                (
                    raw.process_id,
                    lossy_utf8(raw.name_buffer@.take(raw.name_len as int)),
                    raw.thread_id,
                ),
            )
        } else {
            Result::Err(RuntimeQueryError::QueryNameFailed)
        },
    }
}

/// Derives the origin identity from raw query results: truncates the
/// image-name buffer to the reported length and decodes it, rejecting a
/// zero or overlong length as a failed name query.
pub fn resolve_origin(raw: RawOrigin) -> (r: Result<OriginIdentity, RuntimeQueryError>)
    ensures
        r is Ok <==> name_len_valid(raw),
        r matches Result::Ok(o) ==> {
            &&& o.process_id == raw.process_id
            &&& o.thread_id == raw.thread_id
            &&& o.process_name@ == lossy_utf8(raw.name_buffer@.take(raw.name_len as int))
        },
        r matches Result::Err(e) ==> e == RuntimeQueryError::QueryNameFailed,
{
    if raw.name_len == 0 || raw.name_buffer.len() < raw.name_len as usize {
        return Result::Err(RuntimeQueryError::QueryNameFailed);
    }
    let mut buffer = raw.name_buffer;
    buffer.truncate(raw.name_len as usize);
    let process_name = lossy_decode(&buffer);
    Result::Ok(
        OriginIdentity { process_id: raw.process_id, process_name, thread_id: raw.thread_id },
    )
}

/// The per-process log sink: whether the append-only file has been opened
/// in this process instance, and, as ghost state, the complete records
/// this instance has appended, in order.
pub struct LogSink {
    pub opened: bool,
    pub history: Ghost<Seq<Seq<char>>>,
}

impl LogSink {
    /// A fresh sink: no file opened yet, nothing appended.
    pub fn new() -> (s: LogSink)
        ensures
            !s.opened,
            s.history@ == Seq::<Seq<char>>::empty(),
    {
        LogSink { opened: false, history: Ghost(Seq::empty()) }
    }

    /// Whether the file must still be opened before anything is appended:
    /// it is opened on the first loggable event and reused thereafter.
    pub fn needs_open(&self) -> (b: bool)
        ensures
            b == !self.opened,
    {
        !self.opened
    }

    /// Records that the append-only file is now open in this process.
    pub fn mark_open(&mut self)
        requires
            !old(self).opened,
        ensures
            final(self).opened,
            final(self).history == old(self).history,
    {
        self.opened = true;
    }

    /// Records the append of one complete line. The caller writes exactly
    /// this line to the file while holding the exclusion primitive, so the
    /// record is never torn.
    pub fn record_append(&mut self, line: &String)
        requires
            old(self).opened,
        ensures
            final(self).opened,
            final(self).history@ == old(self).history@.push(line@),
    {
        let ghost h = self.history@;
        self.history = Ghost(h.push(line@));
    }
}

/// What the callback does for one loggable event beyond forwarding it:
/// append the one record the event yields, or emit one diagnostic.
#[derive(Debug)]
pub enum LogAction {
    Append(String),
    Diagnose(String),
}

/// The log history of one process instance after one invocation: a
/// loggable event whose origin resolved appends its one record; any other
/// invocation leaves the history unchanged.
pub open spec fn history_after_invocation(
    t: HookType,
    origin: Result<(u32, Seq<char>, u32), RuntimeQueryError>,
    h: Seq<Seq<char>>,
) -> Seq<Seq<char>> {
    if t.spec_should_log() && origin is Ok {
        h.push(record_line(t, origin->Ok_0.0, origin->Ok_0.1, origin->Ok_0.2))
    } else {
        h
    }
}

/// Handles one loggable event once the origin queries have run: resolves
/// the identity, formats the one record and appends it to the sink, or
/// turns the failure into the one diagnostic. The sink gains exactly the
/// record of this event, or nothing.
pub fn process_loggable_event(
    t: HookType,
    queries: Result<RawOrigin, RuntimeQueryError>,
    sink: &mut LogSink,
) -> (act: LogAction)
    requires
        t.spec_should_log(),
        old(sink).opened,
    ensures
        final(sink).opened,
        final(sink).history@ == history_after_invocation(
            t,
            spec_origin_of(queries),
            old(sink).history@,
        ),
        spec_origin_of(queries) matches Result::Ok(o) ==> (act matches LogAction::Append(line)
            && line@ == record_line(t, o.0, o.1, o.2)),
        spec_origin_of(queries) matches Result::Err(e) ==> (act matches LogAction::Diagnose(m)
            && m@ == diagnostic_line(e)),
{
    match queries {
        Result::Err(e) => LogAction::Diagnose(diagnostic_message(e)),
        Result::Ok(raw) => {
            match resolve_origin(raw) {
                Result::Err(e) => LogAction::Diagnose(diagnostic_message(e)),
                Result::Ok(origin) => {
                    let line = format_record(
                        t,
                        origin.process_id,
                        &origin.process_name,
                        origin.thread_id,
                    );
                    sink.record_append(&line);
                    LogAction::Append(line)
                },
            }
        },
    }
}

/// What one hook invocation must do: its category, whether that category
/// is logged, and that the event is forwarded to the next hook in the
/// chain — which holds of every invocation, whatever else happens.
pub struct CallbackPlan {
    pub category: HookType,
    pub log: bool,
    pub forward: bool,
}

/// Plans one invocation from the raw category code. Every plan forwards
/// the event; only the two recognised categories log.
pub fn plan_invocation(wparam: usize) -> (p: CallbackPlan)
    ensures
        p.category == HookType::spec_from_code(wparam),
        p.log == p.category.spec_should_log(),
        p.forward,
{
    let category = HookType::from_wparam(wparam);
    let log = category.should_log();
    CallbackPlan { category, log, forward: true }
}

/// A loggable event whose origin resolved appends exactly one record — the
/// well-formed four-field line of its category and identity — after the
/// history it found, which it leaves intact.
pub proof fn lemma_loggable_appends_one(
    t: HookType,
    origin: Result<(u32, Seq<char>, u32), RuntimeQueryError>,
    h: Seq<Seq<char>>,
)
    requires
        t.spec_should_log(),
        origin is Ok,
    ensures
        history_after_invocation(t, origin, h).len() == h.len() + 1,
        history_after_invocation(t, origin, h).last() == record_line(
            t,
            origin->Ok_0.0,
            origin->Ok_0.1,
            origin->Ok_0.2,
        ),
        history_after_invocation(t, origin, h).take(h.len() as int) == h,
{
    assert(history_after_invocation(t, origin, h).take(h.len() as int) =~= h);
}

/// An event of category `Other` appends no record: the history is
/// unchanged, whatever the origin queries returned. The event is still
/// forwarded, as `plan_invocation` promises of every invocation.
pub proof fn lemma_other_is_noop(
    origin: Result<(u32, Seq<char>, u32), RuntimeQueryError>,
    h: Seq<Seq<char>>,
)
    ensures
        history_after_invocation(HookType::Other, origin, h) == h,
{
}

/// The history after a batch of invocations has appended its records, one
/// whole record at a time, in order.
pub open spec fn push_all(h: Seq<Seq<char>>, lines: Seq<Seq<char>>) -> Seq<Seq<char>>
    decreases lines.len(),
{
    if lines.len() == 0 {
        h
    } else {
        push_all(h.push(lines[0]), lines.drop_first())
    }
}

/// The fixed file name of the shared append-only log, placed in the
/// system's temporary-file directory by whoever opens the sink.
pub fn log_file_name() -> (r: &'static str)
    ensures
        r@ == "input_events.txt"@,
{
    "input_events.txt"
}

/// N invocations that each append one complete record — serialized within
/// one process instance by the sink's exclusion primitive — leave exactly
/// those N records after the prior history, each whole and in order:
/// no record is torn or interleaved with another.
pub proof fn lemma_appends_not_interleaved(h: Seq<Seq<char>>, lines: Seq<Seq<char>>)
    ensures
        push_all(h, lines) == h + lines,
        push_all(h, lines).len() == h.len() + lines.len(),
        forall|i: int| 0 <= i < h.len() ==> push_all(h, lines)[i] == h[i],
        forall|i: int|
            0 <= i < lines.len() ==> push_all(h, lines)[h.len() + i] == lines[i],
    decreases lines.len(),
{
    if lines.len() == 0 {
        assert(push_all(h, lines) =~= h + lines);
    } else {
        lemma_appends_not_interleaved(h.push(lines[0]), lines.drop_first());
        assert(h.push(lines[0]) + lines.drop_first() =~= h + lines);
    }
}

} // verus!
