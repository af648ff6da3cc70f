//! The status line of HTTP responses.
//!
//! The HTTP server emits an empty HTTP/1.1 reason phrase. [`ReasonPhraseWriter`]
//! holds the first line of a response back until it is complete and supplies
//! the exact `200 OK` line in place of the bare one; everything else passes
//! unaltered.

use vstd::prelude::*;
use vstd::string::*;

use crate::bytes::{append, bytes_equal};

verus! {

/// Longest first line that is held back, in bytes.
pub const FIRST_LINE_CAPACITY: usize = 32;

/// The status line that the server emits for success.
pub const BARE_OK: &'static str = "HTTP/1.1 200 \r\n";

/// The status line that is required for success.
pub const REQUIRED_OK: &'static str = "HTTP/1.1 200 OK\r\n";

/// Carriage return.
pub const CR: u8 = 13;

/// Line feed.
pub const LF: u8 = 10;

/// Whether the next input byte belongs to the first line: whether there is one
/// and the line has room for it.
pub fn capture_first_line_byte(
    consumed: usize,
    input_len: usize,
    first_line_len: usize,
    first_line_capacity: usize,
) -> (capture: bool)
    ensures
        capture <==> consumed < input_len && first_line_len < first_line_capacity,
{
    consumed < input_len && first_line_len < first_line_capacity
}

/// Whether input is left after the first line.
pub fn has_unwritten_bytes(consumed: usize, input_len: usize) -> (left: bool)
    ensures
        left <==> consumed < input_len,
{
    consumed < input_len
}

/// Whether the first line has no room left.
pub fn first_line_is_full(first_line_len: usize, first_line_capacity: usize) -> (full: bool)
    ensures
        full <==> first_line_len == first_line_capacity,
{
    first_line_len == first_line_capacity
}

/// Whether a flush has to write the first line as far as it was captured.
pub fn should_flush_first_line(first_line_written: bool, first_line_len: usize) -> (flush: bool)
    ensures
        flush <==> !first_line_written && first_line_len != 0,
{
    !first_line_written && first_line_len != 0
}

/// Whether a line ends in CR LF.
pub open spec fn ends_line(line: Seq<u8>) -> bool {
    line.len() >= 2 && line[line.len() - 2] == CR && line[line.len() - 1] == LF
}

/// Where the first line of `stream` ends, `from` being captured before: behind
/// the first byte that completes a CR LF, at the capacity, or at the end of the
/// stream.
pub open spec fn first_line_end(stream: Seq<u8>, from: int) -> int
    decreases stream.len() - from,
{
    if from >= stream.len() || from >= FIRST_LINE_CAPACITY {
        from
    } else if ends_line(stream.take(from + 1)) {
        from + 1
    } else {
        first_line_end(stream, from + 1)
    }
}

/// Whether the first line is to be written now that it reaches from the
/// captured `from` bytes to `end`.
pub open spec fn line_is_due(stream: Seq<u8>, from: int, end: int) -> bool {
    end == FIRST_LINE_CAPACITY || from < end && ends_line(stream.take(end))
}

/// What is written in place of a first line.
pub open spec fn with_reason(line: Seq<u8>) -> Seq<u8> {
    if line == BARE_OK.spec_bytes() {
        REQUIRED_OK.spec_bytes()
    } else {
        line
    }
}

/// How the caller is to write what it was given.
#[derive(Clone, Copy, Debug, PartialEq, Eq)]
pub enum WritePlan {
    /// Write the input through, and report how much of it was taken.
    PassThrough,
    /// Write nothing: all of the input was captured, and counts as taken.
    Captured,
    /// Write the first line, mark it as written, then write the input from
    /// `consumed` on. All of the input counts as taken.
    FirstLine {
        /// How much of the input belongs to the first line.
        consumed: usize,
    },
}

/// What a [`ReasonPhraseWriter`] remembers.
#[verifier::ext_equal]
pub struct WriterView {
    /// The first line as far as it was captured.
    pub captured: Seq<u8>,
    /// Whether it was written.
    pub written: bool,
}

/// What a writer remembers after it was given input, and how the input is to be
/// written. Unless the first line was written already, the input is captured up
/// to the end of the line.
pub open spec fn on_write(writer: WriterView, bytes: Seq<u8>) -> (WriterView, WritePlan) {
    if writer.written {
        (writer, WritePlan::PassThrough)
    } else {
        let stream = writer.captured + bytes;
        let from = writer.captured.len() as int;
        let end = first_line_end(stream, from);
        (
            WriterView { captured: stream.take(end), written: false },
            if line_is_due(stream, from, end) {
                WritePlan::FirstLine { consumed: (end - from) as usize }
            } else {
                WritePlan::Captured
            },
        )
    }
}

/// Whether a flush has to write the first line: whether there is one that was
/// not written yet.
pub open spec fn flush_is_due(writer: WriterView) -> bool {
    !writer.written && writer.captured.len() != 0
}

/// The state of a response writer.
pub struct ReasonPhraseWriter {
    first_line: [u8; FIRST_LINE_CAPACITY],
    first_line_len: usize,
    first_line_written: bool,
}

impl View for ReasonPhraseWriter {
    type V = WriterView;

    closed spec fn view(&self) -> WriterView {
        WriterView {
            captured: self.first_line@.take(self.first_line_len as int),
            written: self.first_line_written,
        }
    }
}

impl ReasonPhraseWriter {
    /// The captured line is within the capacity.
    #[verifier::type_invariant]
    spec fn fits(self) -> bool {
        self.first_line_len <= FIRST_LINE_CAPACITY
    }

    /// A writer at the start of a response.
    pub fn new() -> (writer: Self)
        ensures
            writer@ == (WriterView { captured: Seq::empty(), written: false }),
    {
        let writer = ReasonPhraseWriter {
            first_line: [0u8; FIRST_LINE_CAPACITY],
            first_line_len: 0,
            first_line_written: false,
        };
        assert(writer@.captured =~= Seq::empty());
        writer
    }

    /// Take input for the response. Unless the first line was written already,
    /// the input is captured up to the end of the line.
    pub fn write(&mut self, bytes: &[u8]) -> (plan: WritePlan)
        ensures
            (final(self)@, plan) == on_write(old(self)@, bytes@),
            final(self)@.written == old(self)@.written,
            old(self)@.written ==> plan is PassThrough && final(self)@ == old(self)@,
            !old(self)@.written ==> !(plan is PassThrough),
    {
        if self.first_line_written {
            return WritePlan::PassThrough;
        }
        proof {
            use_type_invariant(&*self);
        }
        let ghost stream = self@.captured + bytes@;
        let ghost from = self@.captured.len() as int;
        let ghost end = first_line_end(stream, from);
        let mut consumed: usize = 0;
        assert(stream.take(from) =~= self@.captured);
        while capture_first_line_byte(
            consumed,
            bytes.len(),
            self.first_line_len,
            FIRST_LINE_CAPACITY,
        )
            invariant
                !old(self)@.written,
                !self.first_line_written,
                self.first_line_len <= FIRST_LINE_CAPACITY,
                self.first_line_len == from + consumed,
                consumed <= bytes@.len(),
                stream == old(self)@.captured + bytes@,
                from == old(self)@.captured.len(),
                end == first_line_end(stream, from),
                end == first_line_end(stream, from + consumed),
                self@.captured == stream.take(from + consumed),
                consumed > 0 ==> !ends_line(stream.take(from + consumed)),
            decreases bytes@.len() - consumed,
        {
            self.first_line[self.first_line_len] = bytes[consumed];
            self.first_line_len += 1;
            consumed += 1;
            assert(stream[from + consumed - 1] == bytes@[consumed - 1]);
            assert(self@.captured =~= stream.take(from + consumed));
            if self.line_ended() {
                return WritePlan::FirstLine { consumed };
            }
        }
        if first_line_is_full(self.first_line_len, FIRST_LINE_CAPACITY) {
            return WritePlan::FirstLine { consumed };
        }
        WritePlan::Captured
    }

    /// Whether the captured line ends in CR LF.
    fn line_ended(&self) -> (ended: bool)
        ensures
            ended <==> ends_line(self@.captured),
    {
        proof {
            use_type_invariant(self);
        }
        self.first_line_len >= 2 && self.first_line[self.first_line_len - 2] == CR
            && self.first_line[self.first_line_len - 1] == LF
    }

    /// Whether a flush has to write the first line before it flushes the
    /// connection.
    pub fn flush(&self) -> (due: bool)
        ensures
            due <==> flush_is_due(self@),
            due <==> !self@.written && self@.captured.len() != 0,
    {
        proof {
            use_type_invariant(self);
        }
        should_flush_first_line(self.first_line_written, self.first_line_len)
    }

    /// What is to be written for the captured first line.
    pub fn first_line(&self) -> (line: &[u8])
        ensures
            line@ == with_reason(self@.captured),
            self@.captured == BARE_OK.spec_bytes() ==> line@ == REQUIRED_OK.spec_bytes(),
            self@.captured != BARE_OK.spec_bytes() ==> line@ == self@.captured,
    {
        proof {
            use_type_invariant(self);
        }
        let captured = &self.first_line[0..self.first_line_len];
        if bytes_equal(captured, BARE_OK.as_bytes()) {
            REQUIRED_OK.as_bytes()
        } else {
            captured
        }
    }

    /// Mark the first line as written. To be called once all of it was taken.
    pub fn first_line_sent(&mut self)
        ensures
            final(self)@ == (WriterView { written: true, ..old(self)@ }),
    {
        proof {
            use_type_invariant(&*self);
        }
        self.first_line_written = true;
    }

    /// Write to a connection that takes all that it is given.
    pub fn write_to(&mut self, bytes: &[u8], connection: &mut Vec<u8>)
        ensures
            (ResponseState { writer: final(self)@, sent: final(connection)@ }) == after_call(
                ResponseState { writer: old(self)@, sent: old(connection)@ },
                WriterCall::Write(bytes@),
            ),
    {
        proof {
            use_type_invariant(&*self);
            if !self@.written {
                first_line_end_bounds(self@.captured + bytes@, self@.captured.len() as int);
            }
        }
        match self.write(bytes) {
            WritePlan::PassThrough => append(connection, bytes),
            WritePlan::Captured => {},
            WritePlan::FirstLine { consumed } => {
                append(connection, self.first_line());
                self.first_line_sent();
                if has_unwritten_bytes(consumed, bytes.len()) {
                    append(connection, &bytes[consumed..bytes.len()]);
                }
            },
        }
    }

    /// Flush to a connection that takes all that it is given.
    pub fn flush_to(&mut self, connection: &mut Vec<u8>)
        ensures
            (ResponseState { writer: final(self)@, sent: final(connection)@ }) == after_call(
                ResponseState { writer: old(self)@, sent: old(connection)@ },
                WriterCall::Flush,
            ),
    {
        if self.flush() {
            append(connection, self.first_line());
            self.first_line_sent();
        }
    }
}

/// The two status lines, byte by byte.
pub proof fn status_lines_spelled_out()
    ensures
        BARE_OK.spec_bytes() =~= seq![72u8, 84, 84, 80, 47, 49, 46, 49, 32, 50, 48, 48, 32, CR, LF],
        REQUIRED_OK.spec_bytes() =~= seq![
            72u8, 84, 84, 80, 47, 49, 46, 49, 32, 50, 48, 48, 32, 79, 75, CR, LF,
        ],
{
    reveal_strlit("HTTP/1.1 200 \r\n");
    reveal_strlit("HTTP/1.1 200 OK\r\n");
    is_ascii_spec_bytes(BARE_OK);
    is_ascii_spec_bytes(REQUIRED_OK);
}

/// What the server does to a response writer.
pub enum WriterCall {
    /// Write these bytes.
    Write(Seq<u8>),
    /// Flush.
    Flush,
}

/// A response writer and what has reached the connection.
#[verifier::ext_equal]
pub struct ResponseState {
    /// What the writer remembers.
    pub writer: WriterView,
    /// The bytes on the connection.
    pub sent: Seq<u8>,
}

/// The start of a response.
pub open spec fn response_start() -> ResponseState {
    ResponseState {
        writer: WriterView { captured: Seq::empty(), written: false },
        sent: Seq::empty(),
    }
}

/// A response after one call on a connection that takes all that it is given.
pub open spec fn after_call(state: ResponseState, call: WriterCall) -> ResponseState {
    match call {
        WriterCall::Write(bytes) => {
            let (writer, plan) = on_write(state.writer, bytes);
            match plan {
                WritePlan::PassThrough => ResponseState { writer, sent: state.sent + bytes },
                WritePlan::Captured => ResponseState { writer, sent: state.sent },
                WritePlan::FirstLine { consumed } => ResponseState {
                    writer: WriterView { written: true, ..writer },
                    sent: state.sent + with_reason(writer.captured) + bytes.skip(consumed as int),
                },
            }
        },
        WriterCall::Flush => if flush_is_due(state.writer) {
            ResponseState {
                writer: WriterView { written: true, ..state.writer },
                sent: state.sent + with_reason(state.writer.captured),
            }
        } else {
            state
        },
    }
}

/// A response after a series of calls.
pub open spec fn after_calls(calls: Seq<WriterCall>) -> ResponseState
    decreases calls.len(),
{
    if calls.len() == 0 {
        response_start()
    } else {
        after_call(after_calls(calls.drop_last()), calls.last())
    }
}

/// All that the server wrote in a series of calls.
pub open spec fn written_by(calls: Seq<WriterCall>) -> Seq<u8>
    decreases calls.len(),
{
    if calls.len() == 0 {
        Seq::empty()
    } else {
        match calls.last() {
            WriterCall::Write(bytes) => written_by(calls.drop_last()) + bytes,
            WriterCall::Flush => written_by(calls.drop_last()),
        }
    }
}

/// A response with the required reason phrase: its first line, up to the first
/// CR LF but no longer than the capacity, is replaced if it is the bare
/// success line, and the rest stays.
pub open spec fn response_with_reason(response: Seq<u8>) -> Seq<u8> {
    let end = first_line_end(response, 0);
    with_reason(response.take(end)) + response.skip(end)
}

/// Whether a flush came in the middle of the first line: when some of it had
/// been written, but not all.
pub open spec fn flushed_early(calls: Seq<WriterCall>) -> bool
    decreases calls.len(),
{
    if calls.len() == 0 {
        false
    } else {
        let before = calls.drop_last();
        let stream = written_by(before);
        flushed_early(before) || calls.last() is Flush && stream.len() > 0 && !line_is_due(
            stream,
            0,
            first_line_end(stream, 0),
        )
    }
}

/// The first line ends within the stream and within the capacity.
proof fn first_line_end_bounds(stream: Seq<u8>, from: int)
    requires
        0 <= from <= stream.len(),
        from <= FIRST_LINE_CAPACITY,
    ensures
        from <= first_line_end(stream, from) <= stream.len(),
        first_line_end(stream, from) <= FIRST_LINE_CAPACITY,
        first_line_end(stream, from) == stream.len() || line_is_due(
            stream,
            from,
            first_line_end(stream, from),
        ),
    decreases stream.len() - from,
{
    if from < stream.len() && from < FIRST_LINE_CAPACITY && !ends_line(stream.take(from + 1)) {
        first_line_end_bounds(stream, from + 1);
    }
}

/// A first line that is complete stays the same whatever follows, and one that
/// is not is searched on from where the stream ended.
proof fn first_line_end_extends(stream: Seq<u8>, more: Seq<u8>, from: int)
    requires
        0 <= from <= stream.len(),
        from <= FIRST_LINE_CAPACITY,
    ensures
        line_is_due(stream, from, first_line_end(stream, from)) ==> first_line_end(
            stream + more,
            from,
        ) == first_line_end(stream, from),
        !line_is_due(stream, from, first_line_end(stream, from)) ==> first_line_end(
            stream + more,
            from,
        ) == first_line_end(stream + more, stream.len() as int),
    decreases stream.len() - from,
{
    first_line_end_bounds(stream, from);
    if from < stream.len() && from < FIRST_LINE_CAPACITY {
        assert((stream + more).take(from + 1) =~= stream.take(from + 1));
        if !ends_line(stream.take(from + 1)) {
            first_line_end_extends(stream, more, from + 1);
            first_line_end_bounds(stream, from + 1);
        }
    }
}

/// What has reached the connection after any series of calls, before and after
/// the flushes. A flush in the middle of the first line lets the response
/// through as it was written. Otherwise nothing is sent while the first line is
/// incomplete, and the response with the required reason phrase from then on.
pub proof fn response_so_far(calls: Seq<WriterCall>)
    ensures
        ({
            let state = after_calls(calls);
            let stream = written_by(calls);
            let due = line_is_due(stream, 0, first_line_end(stream, 0));
            &&& state.writer.written <==> flushed_early(calls) || due
            &&& flushed_early(calls) ==> state.sent == stream
            &&& !flushed_early(calls) && due ==> state.sent == response_with_reason(stream)
            &&& !flushed_early(calls) && !due ==> state.sent == Seq::<u8>::empty()
                && state.writer.captured == stream && stream.len() < FIRST_LINE_CAPACITY
        }),
    decreases calls.len(),
{
    if calls.len() == 0 {
        assert(written_by(calls).take(0) =~= Seq::empty());
    } else {
        let before = calls.drop_last();
        response_so_far(before);
        let state = after_calls(before);
        let stream = written_by(before);
        first_line_end_bounds(stream, 0);
        match calls.last() {
            WriterCall::Flush => {
                if !state.writer.written {
                    captured_line_keeps_its_reason(stream);
                    assert(after_calls(calls).sent =~= stream);
                }
            },
            WriterCall::Write(bytes) => {
                let all = stream + bytes;
                first_line_end_extends(stream, bytes, 0);
                first_line_end_bounds(all, 0);
                let end = first_line_end(all, 0);
                if flushed_early(before) {
                    assert(after_calls(calls).sent =~= all);
                } else if state.writer.written {
                    assert(all.take(end) =~= stream.take(end));
                    assert(all.skip(end) =~= stream.skip(end) + bytes);
                    assert(after_calls(calls).sent =~= response_with_reason(all));
                } else {
                    first_line_end_bounds(all, stream.len() as int);
                    if line_is_due(all, stream.len() as int, end) {
                        assert(bytes.skip(end - stream.len()) =~= all.skip(end));
                        assert(after_calls(calls).sent =~= response_with_reason(all));
                    } else {
                        assert(all.take(end) =~= all);
                    }
                }
            },
        }
    }
}

/// A line that is not due is not the bare success line.
proof fn captured_line_keeps_its_reason(stream: Seq<u8>)
    requires
        !line_is_due(stream, 0, first_line_end(stream, 0)),
    ensures
        with_reason(stream) == stream,
        response_with_reason(stream) == stream,
{
    first_line_end_bounds(stream, 0);
    status_lines_spelled_out();
    assert(stream.take(stream.len() as int) =~= stream);
    assert(response_with_reason(stream) =~= stream);
}

/// A server that only writes flushes nothing early.
proof fn writes_flush_nothing_early(calls: Seq<WriterCall>)
    requires
        forall|i: int| 0 <= i < calls.len() ==> #[trigger] calls[i] is Write,
    ensures
        !flushed_early(calls),
    decreases calls.len(),
{
    if calls.len() > 0 {
        let before = calls.drop_last();
        assert forall|i: int| 0 <= i < before.len() implies #[trigger] before[i] is Write by {
            assert(before[i] == calls[i]);
        }
        writes_flush_nothing_early(before);
        assert(calls[calls.len() - 1] is Write);
    }
}

/// However the server cuts a response into writes, what reaches the connection
/// once it is flushed is the response with the required reason phrase.
pub proof fn reason_phrase_is_supplied_for_every_chunking(calls: Seq<WriterCall>)
    requires
        forall|i: int| 0 <= i < calls.len() ==> #[trigger] calls[i] is Write,
    ensures
        after_call(after_calls(calls), WriterCall::Flush).sent == response_with_reason(
            written_by(calls),
        ),
{
    writes_flush_nothing_early(calls);
    responses_arrive_whole(calls);
}

/// Whatever the server writes and whenever it flushes, nothing is lost or
/// reordered: what has reached the connection once it is flushed is the response
/// as it was written where a flush came in the middle of the first line, and the
/// response with the required reason phrase otherwise.
pub proof fn responses_arrive_whole(calls: Seq<WriterCall>)
    ensures
        after_call(after_calls(calls), WriterCall::Flush).sent == if flushed_early(calls) {
            written_by(calls)
        } else {
            response_with_reason(written_by(calls))
        },
{
    response_so_far(calls);
    let state = after_calls(calls);
    let stream = written_by(calls);
    if !state.writer.written {
        captured_line_keeps_its_reason(stream);
        assert(after_call(state, WriterCall::Flush).sent =~= stream);
    }
}

/// A success response gets the required status line, and nothing else of it
/// changes.
pub proof fn success_gets_its_reason_phrase(rest: Seq<u8>)
    ensures
        response_with_reason(BARE_OK.spec_bytes() + rest) == REQUIRED_OK.spec_bytes() + rest,
{
    status_lines_spelled_out();
    let bare = BARE_OK.spec_bytes();
    let response = bare + rest;
    bare_line_ends_at_its_end(response, 0);
    assert(response.take(15) =~= bare);
    assert(response.skip(15) =~= rest);
}

/// The search for the end of the bare success line runs up to its CR LF.
proof fn bare_line_ends_at_its_end(response: Seq<u8>, from: int)
    requires
        0 <= from < 15 <= response.len(),
        response.take(15) == BARE_OK.spec_bytes(),
    ensures
        first_line_end(response, from) == 15,
    decreases 15 - from,
{
    status_lines_spelled_out();
    let bare = BARE_OK.spec_bytes();
    assert forall|i: int| 0 <= i < 15 implies response[i] == bare[i] by {
        assert(response.take(15)[i] == response[i]);
    }
    if from < 14 {
        assert(response.take(from + 1)[from] == bare[from]);
        assert(!ends_line(response.take(from + 1)));
        bare_line_ends_at_its_end(response, from + 1);
    } else {
        assert(response.take(15)[13] == CR && response.take(15)[14] == LF);
    }
}

/// A response that does not start with the bare success line passes unaltered.
pub proof fn other_responses_pass_unaltered(response: Seq<u8>)
    requires
        !BARE_OK.spec_bytes().is_prefix_of(response),
    ensures
        response_with_reason(response) == response,
{
    first_line_end_bounds(response, 0);
    let end = first_line_end(response, 0);
    assert(response.take(end) != BARE_OK.spec_bytes());
    assert(response_with_reason(response) =~= response);
}

/// The first line ends at the first CR LF that is completed after `from`, at 32
/// bytes, or at the end of the stream, whichever comes first; and it is due
/// exactly at such a CR LF or at 32 bytes.
pub proof fn first_line_ends_at_the_first_end(stream: Seq<u8>, from: int)
    requires
        0 <= from <= stream.len(),
        from <= 32,
    ensures
        ({
            let end = first_line_end(stream, from);
            let at_end = from < end && end >= 2 && stream[end - 2] == 13 && stream[end - 1] == 10;
            &&& from <= end <= stream.len()
            &&& end <= 32
            &&& forall|k: int|
                1 <= k && from <= k < end - 1 ==> !(stream[k - 1] == 13 && #[trigger] stream[k]
                    == 10)
            &&& end == stream.len() || end == 32 || at_end
            &&& line_is_due(stream, from, end) <==> end == 32 || at_end
        }),
    decreases stream.len() - from,
{
    if from < stream.len() && from < 32 && !ends_line(stream.take(from + 1)) {
        first_line_ends_at_the_first_end(stream, from + 1);
        let end = first_line_end(stream, from);
        assert forall|k: int| 1 <= k && from <= k < end - 1 implies !(stream[k - 1] == 13
            && #[trigger] stream[k] == 10) by {
            if k == from {
                assert(stream.take(from + 1)[k] == stream[k]);
                assert(stream.take(from + 1)[k - 1] == stream[k - 1]);
            }
        }
        first_line_end_bounds(stream, from + 1);
    }
}

/// A stream has a complete first line exactly where it holds 32 bytes or a CR LF.
pub proof fn first_line_is_due_once_complete(stream: Seq<u8>)
    ensures
        line_is_due(stream, 0, first_line_end(stream, 0)) <==> {
            ||| stream.len() >= 32
            ||| exists|k: int|
                1 <= k < stream.len() && stream[k - 1] == 13 && #[trigger] stream[k] == 10
        },
{
    first_line_ends_at_the_first_end(stream, 0);
    let end = first_line_end(stream, 0);
    if line_is_due(stream, 0, end) && end != 32 {
        assert(stream[end - 1] == 10);
    }
    if !line_is_due(stream, 0, end) {
        assert forall|k: int| 1 <= k < stream.len() implies !(stream[k - 1] == 13
            && #[trigger] stream[k] == 10) by {
            if k == end - 1 {
                assert(stream[end - 2] == stream[k - 1]);
            }
        }
    }
}

/// What a writer captures: the input up to the end of the first line and nothing
/// beyond it. The line is to be written exactly where the input completed a CR LF
/// or 32 bytes are reached; otherwise all of the input is captured. Once the line
/// was written, everything passes through.
pub proof fn writer_captures_the_first_line(writer: WriterView, bytes: Seq<u8>)
    requires
        writer.captured.len() <= 32,
    ensures
        ({
            let (next, plan) = on_write(writer, bytes);
            let stream = writer.captured + bytes;
            let from = writer.captured.len() as int;
            let end = next.captured.len() as int;
            let complete = end == 32 || from < end && end >= 2 && stream[end - 2] == 13
                && stream[end - 1] == 10;
            &&& next.written == writer.written
            &&& writer.written ==> next == writer && plan is PassThrough
            &&& !writer.written ==> {
                &&& from <= end <= stream.len()
                &&& end <= 32
                &&& next.captured == stream.take(end)
                &&& forall|k: int|
                    1 <= k && from <= k < end - 1 ==> !(stream[k - 1] == 13
                        && #[trigger] stream[k] == 10)
                &&& complete ==> (plan matches WritePlan::FirstLine { consumed } && consumed == end
                    - from)
                &&& !complete ==> plan is Captured && end == stream.len()
            }
        }),
{
    if !writer.written {
        first_line_ends_at_the_first_end(
            writer.captured + bytes,
            writer.captured.len() as int,
        );
    }
}

/// The bare success line, and it alone, is replaced by the one with the reason
/// phrase.
pub proof fn only_the_bare_success_line_is_replaced(line: Seq<u8>)
    ensures
        ({
            let bare = seq![72u8, 84, 84, 80, 47, 49, 46, 49, 32, 50, 48, 48, 32, 13, 10];
            let full = seq![72u8, 84, 84, 80, 47, 49, 46, 49, 32, 50, 48, 48, 32, 79, 75, 13, 10];
            &&& line == bare ==> with_reason(line) == full
            &&& line != bare ==> with_reason(line) == line
        }),
{
    status_lines_spelled_out();
}

/// A flush that comes when something was written, but neither a CR LF nor 32
/// bytes, is an early one, whatever else the server does.
pub proof fn early_flush_cuts_the_first_line(calls: Seq<WriterCall>, k: int)
    requires
        0 <= k < calls.len(),
        calls[k] is Flush,
        0 < written_by(calls.take(k)).len() < 32,
        forall|i: int|
            1 <= i < written_by(calls.take(k)).len() ==> !(written_by(calls.take(k))[i - 1] == 13
                && #[trigger] written_by(calls.take(k))[i] == 10),
    ensures
        flushed_early(calls),
    decreases calls.len(),
{
    let before = calls.drop_last();
    if k == calls.len() - 1 {
        assert(calls.take(k) =~= before);
        first_line_is_due_once_complete(written_by(before));
    } else {
        assert(before.take(k) =~= calls.take(k));
        early_flush_cuts_the_first_line(before, k);
    }
}

/// No flush is early where each one comes before anything was written, or once
/// the first line is complete.
pub proof fn flushes_between_lines_are_not_early(calls: Seq<WriterCall>)
    requires
        forall|k: int|
            0 <= k < calls.len() && (#[trigger] calls[k] is Flush) ==> written_by(
                calls.take(k),
            ).len() == 0 || line_is_due(
                written_by(calls.take(k)),
                0,
                first_line_end(written_by(calls.take(k)), 0),
            ),
    ensures
        !flushed_early(calls),
    decreases calls.len(),
{
    if calls.len() > 0 {
        let before = calls.drop_last();
        let last = calls.len() - 1;
        assert forall|k: int| 0 <= k < before.len() && (#[trigger] before[k] is Flush) implies
            written_by(before.take(k)).len() == 0 || line_is_due(
            written_by(before.take(k)),
            0,
            first_line_end(written_by(before.take(k)), 0),
        ) by {
            assert(calls[k] == before[k]);
            assert(calls[k] is Flush);
            assert(before.take(k) =~= calls.take(k));
        }
        flushes_between_lines_are_not_early(before);
        assert(calls.take(last) =~= before);
        if calls.last() is Flush {
            assert(calls[last] is Flush);
        }
    }
}

/// What reaches the connection only grows, and a written first line stays
/// written: no call takes anything back.
pub proof fn calls_take_nothing_back(state: ResponseState, call: WriterCall)
    ensures
        state.sent.is_prefix_of(after_call(state, call).sent),
        state.writer.written ==> after_call(state, call).writer.written,
        state.writer.written ==> after_call(state, call).sent == state.sent + match call {
            WriterCall::Write(bytes) => bytes,
            WriterCall::Flush => Seq::empty(),
        },
        !state.writer.written && !after_call(state, call).writer.written ==> after_call(
            state,
            call,
        ).sent == state.sent,
{
    assert(state.sent + Seq::<u8>::empty() =~= state.sent);
}

} // verus!
