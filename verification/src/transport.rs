//! Transport layer: byte transports and Content-Length message framing.
//!
//! A [`Transport`] moves raw bytes; [`MessageFramer`], [`MessageReader`] and
//! [`MessageWriter`] add the framing that [`crate::frame`] describes.
use crate::error::{CopilotError, Result};
use crate::frame::{
    encode_frame, frame_bytes, lemma_frame_roundtrip,
    classify_header, latin1, length_value, length_value_bounds, lower_all, lower_byte,
    classify_header_line, lemma_parse_frame_extends, lemma_scan_extends, lemma_scan_line,
    lemma_scan_end_bound, lemma_scan_line_bytes, names_content_length, newline, no_newline, parse_frame, scan_headers,
    strip_cr, FrameParse, HeaderScan, LengthHeader,
};
use crate::text::string_from_utf8;
use vstd::string::StringExecFns;
use vstd::prelude::*;
use vstd::string::StringSliceAdditionalSpecFns;
use vstd::utf8::*;

verus! {

/// Size of the read buffer of a framer.
pub const READ_BUFFER_SIZE: usize = 4096;

// =============================================================================
// Transport Trait
// =============================================================================

/// Transport for raw byte I/O.
///
/// Implementations provide the underlying byte stream (stdio pipes, memory,
/// ...). The transport reads and writes raw bytes; framing is handled
/// separately by [`MessageFramer`].
///
/// Every implementation keeps the basic promises of a byte stream: a read
/// fills at most the buffer it is given. A type may in addition keep the
/// stream model (`received`, `remaining`, `sent`, `connected`) and say so
/// with `obeys_stream_model`; the clauses about the model bind only such
/// types. A type that keeps the defaults promises nothing about the model.
pub trait Transport: Sized {
    /// Whether this type keeps the stream model.
    open spec fn obeys_stream_model() -> bool {
        false
    }

    /// The transport's own well-formedness.
    open spec fn inv(&self) -> bool {
        true
    }

    /// Every byte that `read` has delivered so far, in order.
    open spec fn received(&self) -> Seq<u8> {
        Seq::empty()
    }

    /// The bytes that `read` has yet to deliver, in order.
    open spec fn remaining(&self) -> Seq<u8> {
        Seq::empty()
    }

    /// Every byte that `write` has accepted so far, in order.
    open spec fn sent(&self) -> Seq<u8> {
        Seq::empty()
    }

    /// Whether the transport is open.
    open spec fn connected(&self) -> bool {
        true
    }

    /// Reads up to `buf.len()` bytes into the front of `buf` and returns how
    /// many; 0 means end of stream. A failed read delivers nothing. In the
    /// stream model a read succeeds exactly when the transport is open (a
    /// closed one fails with `ConnectionClosed`),
    /// delivers the next remaining bytes into the front of `buf` and leaves
    /// the rest of `buf` alone, and returns 0 only at the end of the stream.
    fn read(&mut self, buf: &mut [u8]) -> (r: Result<usize>)
        requires
            old(self).inv(),
        ensures
            final(self).inv(),
            final(buf)@.len() == old(buf)@.len(),
            r matches Ok(n) ==> n <= old(buf)@.len(),
            Self::obeys_stream_model() ==> (r is Ok <==> old(self).connected()),
            Self::obeys_stream_model() ==> (r is Err ==> r matches Err(CopilotError::ConnectionClosed)),
            Self::obeys_stream_model() ==> final(self).connected() == old(self).connected(),
            Self::obeys_stream_model() ==> final(self).sent() == old(self).sent(),
            Self::obeys_stream_model() ==> match r {
                Ok(n) => {
                    &&& n <= old(self).remaining().len()
                    &&& final(buf)@.take(n as int) == old(self).remaining().take(n as int)
                    &&& final(buf)@.skip(n as int) == old(buf)@.skip(n as int)
                    &&& final(self).remaining() == old(self).remaining().skip(n as int)
                    &&& final(self).received() == old(self).received() + final(buf)@.take(
                        n as int,
                    )
                    &&& n == 0 ==> (old(buf)@.len() == 0 || old(self).remaining().len() == 0)
                },
                Err(_) => {
                    &&& final(buf)@ == old(buf)@
                    &&& final(self).received() == old(self).received()
                    &&& final(self).remaining() == old(self).remaining()
                },
            },
    ;

    /// Writes all of `data`. A failed write may have written part of it; in
    /// the stream model a write succeeds exactly when the transport is open,
    /// and a failed one writes nothing and fails with `ConnectionClosed`.
    fn write(&mut self, data: &[u8]) -> (r: Result<()>)
        requires
            old(self).inv(),
        ensures
            final(self).inv(),
            Self::obeys_stream_model() ==> (r is Ok <==> old(self).connected()),
            Self::obeys_stream_model() ==> (r is Err ==> r matches Err(CopilotError::ConnectionClosed)),
            Self::obeys_stream_model() ==> final(self).connected() == old(self).connected(),
            Self::obeys_stream_model() ==> final(self).received() == old(self).received(),
            Self::obeys_stream_model() ==> final(self).remaining() == old(self).remaining(),
            Self::obeys_stream_model() ==> match r {
                Ok(()) => final(self).sent() == old(self).sent() + data@,
                Err(_) => final(self).sent() == old(self).sent(),
            },
    ;

    /// Closes the transport.
    fn close(&mut self) -> (r: Result<()>)
        requires
            old(self).inv(),
        ensures
            final(self).inv(),
            Self::obeys_stream_model() ==> final(self).received() == old(self).received(),
            Self::obeys_stream_model() ==> final(self).remaining() == old(self).remaining(),
            Self::obeys_stream_model() ==> final(self).sent() == old(self).sent(),
            Self::obeys_stream_model() ==> (r is Ok ==> !final(self).connected()),
    ;

    /// Whether the transport is open.
    fn is_open(&self) -> (b: bool)
        ensures
            Self::obeys_stream_model() ==> b == self.connected(),
    ;
}

// =============================================================================
// Read buffer shared by the framing readers
// =============================================================================

/// Bytes read from a transport but not yet consumed.
struct ReadBuffer {
    buffer: Vec<u8>,
    buffer_pos: usize,
    buffer_len: usize,
    /// Every byte fetched from the transport so far, in order.
    fetched: Ghost<Seq<u8>>,
    /// The result of the last read of the transport, if any.
    last: Ghost<Option<Result<usize>>>,
}

/// What reading one message from the byte stream `total` may give, with
/// `rest` left unconsumed afterwards. A stream that ends before its frame is
/// decided gives an error and leaves nothing unconsumed; which error is told
/// by the last read (see `ended_by_read`).
pub open spec fn read_outcome(total: Seq<u8>, r: Result<String>, rest: Seq<u8>) -> bool {
    match parse_frame(total) {
        FrameParse::Incomplete => r is Err && rest.len() == 0,
        FrameParse::Message { body, end } => {
            &&& rest == total.skip(end as int)
            &&& if valid_utf8(body) {
                r matches Ok(s) && s@ == decode_utf8(body)
            } else {
                r matches Err(CopilotError::Protocol(m)) && "Invalid UTF-8 in message: "@.is_prefix_of(
                    m@,
                )
            }
        },
        FrameParse::MissingLength { end } => {
            &&& rest == total.skip(end as int)
            &&& r matches Err(CopilotError::Protocol(m)) && m@ == "Missing Content-Length header"@
        },
        FrameParse::InvalidLength { end, line } => {
            &&& rest == total.skip(end as int)
            &&& r matches Err(CopilotError::Protocol(m)) && m@ == invalid_length_text(line)
        },
    }
}

/// What a write sends, a read gives back: reading from a stream that starts
/// with the frame of message `m` yields `m` and leaves exactly the bytes that
/// followed the frame.
pub proof fn lemma_read_after_write(
    m: Seq<char>,
    rest: Seq<u8>,
    r: Result<String>,
    left: Seq<u8>,
)
    requires
        encode_utf8(m).len() <= usize::MAX,
        read_outcome(frame_bytes(encode_utf8(m)) + rest, r, left),
    ensures
        r matches Ok(s) && s@ == m,
        left == rest,
{
    let body = encode_utf8(m);
    lemma_frame_roundtrip(body, rest);
    encode_utf8_valid_utf8(m);
    encode_utf8_decode_utf8(m);
    let total = frame_bytes(body) + rest;
    assert(total.skip(frame_bytes(body).len() as int) =~= rest);
}

/// The frames of the messages `ms`, one after another.
pub open spec fn frames(ms: Seq<Seq<char>>) -> Seq<u8>
    decreases ms.len(),
{
    if ms.len() == 0 {
        Seq::empty()
    } else {
        frame_bytes(encode_utf8(ms[0])) + frames(ms.drop_first())
    }
}

/// Messages written one after another are read back in turn: reading from
/// the frames of `ms` gives the first message and leaves exactly the frames
/// of the others; once no frame is left, reading fails and leaves nothing.
pub proof fn lemma_read_frames_in_turn(ms: Seq<Seq<char>>, r: Result<String>, left: Seq<u8>)
    requires
        ms.len() > 0 ==> encode_utf8(ms[0]).len() <= usize::MAX,
        read_outcome(frames(ms), r, left),
    ensures
        ms.len() > 0 ==> (r matches Ok(s) && s@ == ms[0] && left == frames(ms.drop_first())),
        ms.len() == 0 ==> (r is Err && left.len() == 0),
{
    if ms.len() > 0 {
        lemma_read_after_write(ms[0], frames(ms.drop_first()), r, left);
    }
}

/// The bytes a reader got decide what reading a message gives: two reads
/// of the same bytes leave the same bytes unconsumed, succeed together with
/// the same text, and fail with the same protocol error text, except that
/// the detail of an invalid UTF-8 body and the error of an undecided frame
/// come from elsewhere.
pub proof fn lemma_read_outcome_unique(
    total: Seq<u8>,
    r1: Result<String>,
    rest1: Seq<u8>,
    r2: Result<String>,
    rest2: Seq<u8>,
)
    requires
        read_outcome(total, r1, rest1),
        read_outcome(total, r2, rest2),
    ensures
        rest1 == rest2,
        r1 is Ok <==> r2 is Ok,
        r1 matches Ok(a) ==> (r2 matches Ok(b) && a@ == b@),
        !(parse_frame(total) is Incomplete) ==> (r1 matches Err(CopilotError::Protocol(a)) ==> (
        r2 matches Err(CopilotError::Protocol(b)) && (parse_frame(total) is Message || a@
            == b@))),
{
    if parse_frame(total) is Incomplete {
        assert(rest1 =~= rest2);
    }
}

/// The error text for a `Content-Length` line with an invalid value.
pub open spec fn invalid_length_text(line: Seq<u8>) -> Seq<char> {
    "Invalid Content-Length value: "@ + latin1(lower_all(length_value(line)))
}

/// Builds the error text for a `Content-Length` line with an invalid value.
fn invalid_length_message(line: &[u8]) -> (m: String)
    requires
        names_content_length(line@),
    ensures
        m@ == invalid_length_text(line@),
{
    let (start, end) = length_value_bounds(line);
    let mut m = String::from_str("Invalid Content-Length value: ");
    let ghost base = m@;
    let mut i = start;
    while i < end
        invariant
            start <= i <= end <= line@.len(),
            base == "Invalid Content-Length value: "@,
            m@ == base + latin1(lower_all(line@.subrange(start as int, i as int))),
        decreases end - i,
    {
        let c = lower_byte(line[i]) as char;
        m.push(c);
        assert(latin1(lower_all(line@.subrange(start as int, i + 1))) =~= latin1(
            lower_all(line@.subrange(start as int, i as int)),
        ).push(c));
        i += 1;
    }
    m
}

/// The bytes that arrived on a transport between two states.
pub open spec fn arrived(before: Seq<u8>, after: Seq<u8>) -> Seq<u8> {
    after.skip(before.len() as int)
}

/// Arrivals over two successive spans add up.
proof fn lemma_arrived_split(a: Seq<u8>, b: Seq<u8>, c: Seq<u8>)
    requires
        a.is_prefix_of(b),
        b.is_prefix_of(c),
    ensures
        a.is_prefix_of(c),
        arrived(a, c) == arrived(a, b) + arrived(b, c),
{
    assert(arrived(a, c) =~= arrived(a, b) + arrived(b, c));
}

/// How the model of a transport moves while a reader fetches the bytes
/// `got` from it: nothing is sent, the transport stays as open as it was,
/// `got` moves from the front of what remains to the end of what was
/// received, and a closed transport gives nothing.
pub open spec fn model_fetch<T: Transport>(before: T, after: T, got: Seq<u8>) -> bool {
    T::obeys_stream_model() ==> {
        &&& after.sent() == before.sent()
        &&& after.connected() == before.connected()
        &&& after.received() == before.received() + got
        &&& before.remaining() == got + after.remaining()
        &&& !before.connected() ==> got.len() == 0
    }
}

/// The error `e` that ended reading a message, given the last read's
/// result: either that read returned 0, the stream ended, and `e` is
/// `ConnectionClosed`, or that read failed with `e` itself.
pub open spec fn ended_by_read(last: Option<Result<usize>>, e: CopilotError) -> bool {
    ||| (last == Some(Ok::<usize, CopilotError>(0usize)) && e is ConnectionClosed)
    ||| last == Some(Err::<usize, CopilotError>(e))
}

/// In the stream model, a last read that returned 0 left nothing to read,
/// and a last read that failed found the transport closed from the start and
/// failed with `ConnectionClosed`.
pub open spec fn model_read_end<T: Transport>(
    last: Option<Result<usize>>,
    before: T,
    after: T,
) -> bool {
    T::obeys_stream_model() ==> {
        &&& last == Some(Ok::<usize, CopilotError>(0usize)) ==> after.remaining().len() == 0
        &&& (last matches Some(Err(_))) ==> !before.connected()
        &&& (last matches Some(Err(e)) ==> e is ConnectionClosed)
    }
}

/// Moves of the model over two successive spans compose.
proof fn lemma_model_fetch_chain<T: Transport>(
    t0: T,
    t1: T,
    t2: T,
    f0: Seq<u8>,
    f1: Seq<u8>,
    f2: Seq<u8>,
)
    requires
        f0.is_prefix_of(f1),
        f1.is_prefix_of(f2),
        model_fetch(t0, t1, arrived(f0, f1)),
        model_fetch(t1, t2, arrived(f1, f2)),
    ensures
        model_fetch(t0, t2, arrived(f0, f2)),
{
    lemma_arrived_split(f0, f1, f2);
    if T::obeys_stream_model() {
        assert(t2.received() =~= t0.received() + arrived(f0, f2));
        assert(t0.remaining() =~= arrived(f0, f2) + t2.remaining());
    }
}

/// Appending `x` to `a` makes exactly `x` arrive.
proof fn lemma_arrived_append(a: Seq<u8>, x: Seq<u8>)
    ensures
        a.is_prefix_of(a + x),
        arrived(a, a + x) == x,
{
    assert(arrived(a, a + x) =~= x);
    assert(a =~= (a + x).take(a.len() as int));
}

/// Nothing fetched, nothing moved.
proof fn lemma_model_fetch_none<T: Transport>(t: T, f: Seq<u8>)
    ensures
        f.is_prefix_of(f),
        arrived(f, f) == Seq::<u8>::empty(),
        model_fetch(t, t, arrived(f, f)),
{
    lemma_arrived_append(f, Seq::<u8>::empty());
    assert(f + Seq::<u8>::empty() =~= f);
    assert(t.received() + Seq::<u8>::empty() =~= t.received());
    assert(Seq::<u8>::empty() + t.remaining() =~= t.remaining());
}

/// When the stream model knows every byte still to come, reading a message
/// from what was fetched is reading it from the whole stream: a decided
/// frame stays decided, and an undecided one means the stream ended.
proof fn lemma_read_whole_stream(
    b0: Seq<u8>,
    got: Seq<u8>,
    rem: Seq<u8>,
    r: Result<String>,
    rest: Seq<u8>,
)
    requires
        read_outcome(b0 + got, r, rest),
        parse_frame(b0 + got) is Incomplete ==> rem.len() == 0,
    ensures
        read_outcome(b0 + (got + rem), r, rest + rem),
        parse_frame(b0 + (got + rem)) is Incomplete ==> parse_frame(b0 + got) is Incomplete,
{
    let t = b0 + got;
    assert(b0 + (got + rem) =~= t + rem);
    if parse_frame(t) is Incomplete {
        assert(t + rem =~= t);
        assert(rest + rem =~= rest);
    } else {
        lemma_parse_frame_extends(t, rem);
        lemma_scan_end_bound(t);
        match parse_frame(t) {
            FrameParse::Message { body, end } => {
                assert((t + rem).skip(end as int) =~= t.skip(end as int) + rem);
            },
            FrameParse::MissingLength { end } => {
                assert((t + rem).skip(end as int) =~= t.skip(end as int) + rem);
            },
            FrameParse::InvalidLength { end, line } => {
                assert((t + rem).skip(end as int) =~= t.skip(end as int) + rem);
            },
            FrameParse::Incomplete => {},
        }
    }
}

impl ReadBuffer {
    spec fn wf(&self) -> bool {
        &&& self.buffer_pos <= self.buffer_len <= self.buffer@.len()
        &&& self.buffer@.len() == READ_BUFFER_SIZE
    }

    spec fn pending(&self) -> Seq<u8> {
        self.buffer@.subrange(self.buffer_pos as int, self.buffer_len as int)
    }

    fn new() -> (r: Self)
        ensures
            r.wf(),
            r.pending() == Seq::<u8>::empty(),
            r.fetched@ == Seq::<u8>::empty(),
            r.last@ is None,
    {
        let buffer = vec![0u8; READ_BUFFER_SIZE];
        let r = ReadBuffer {
            buffer,
            buffer_pos: 0,
            buffer_len: 0,
            fetched: Ghost(Seq::empty()),
            last: Ghost(None),
        };
        assert(r.pending() =~= Seq::<u8>::empty());
        r
    }

    /// Refills the empty buffer with one read of the transport, and fails
    /// when that read fails; an empty buffer afterwards means end of stream.
    fn fill_buffer<T: Transport>(&mut self, transport: &mut T) -> (r: Result<()>)
        requires
            old(self).wf(),
            old(transport).inv(),
            old(self).pending().len() == 0,
        ensures
            final(self).wf(),
            final(transport).inv(),
            old(self).fetched@.is_prefix_of(final(self).fetched@),
            model_fetch(
                *old(transport),
                *final(transport),
                arrived(old(self).fetched@, final(self).fetched@),
            ),
            T::obeys_stream_model() ==> (r is Ok <==> old(transport).connected()),
            model_read_end(final(self).last@, *old(transport), *final(transport)),
            match r {
                Ok(()) => {
                    &&& final(self).buffer_pos == 0
                    &&& final(self).fetched@ == old(self).fetched@ + final(self).pending()
                    &&& final(self).last@ == Some(Ok::<usize, CopilotError>(final(self).buffer_len))
                },
                Err(e) => {
                    &&& final(self).fetched@ == old(self).fetched@
                    &&& final(self).pending().len() == 0
                    &&& final(self).last@ == Some(Err::<usize, CopilotError>(e))
                },
            },
    {
        self.buffer_pos = 0;
        self.buffer_len = 0;
        let ghost f0 = self.fetched@;
        let res = transport.read(self.buffer.as_mut_slice());
        match res {
            Ok(n) => {
                self.buffer_len = n;
                assert(self.pending() =~= self.buffer@.take(n as int));
                self.fetched = Ghost(f0 + self.pending());
                self.last = Ghost(Some(Ok(n)));
                proof {
                    lemma_arrived_append(f0, self.pending());
                    if T::obeys_stream_model() {
                        let rem0 = old(transport).remaining();
                        assert(self.pending() == rem0.take(n as int));
                        assert(rem0 =~= rem0.take(n as int) + rem0.skip(n as int));
                    }
                }
                Ok(())
            },
            Err(e) => {
                self.last = Ghost(Some(Err(e)));
                assert(self.pending() =~= Seq::<u8>::empty());
                proof {
                    lemma_model_fetch_none(*transport, f0);
                    if T::obeys_stream_model() {
                        assert(transport.received() =~= old(transport).received()
                            + Seq::<u8>::empty());
                        assert(old(transport).remaining() =~= Seq::<u8>::empty()
                            + transport.remaining());
                    }
                }
                Err(e)
            },
        }
    }

    /// Reads one line, up to and including `\n`, and appends its bytes to
    /// `out`. On failure every byte that arrived has been appended and none of
    /// them is a `\n`.
    fn read_line<T: Transport>(&mut self, transport: &mut T, out: &mut Vec<u8>) -> (r: Result<()>)
        requires
            old(self).wf(),
            old(transport).inv(),
        ensures
            final(self).wf(),
            final(transport).inv(),
            old(self).fetched@.is_prefix_of(final(self).fetched@),
            model_fetch(
                *old(transport),
                *final(transport),
                arrived(old(self).fetched@, final(self).fetched@),
            ),
            old(out)@.is_prefix_of(final(out)@),
            ({
                let avail = old(self).pending() + arrived(old(self).fetched@, final(self).fetched@);
                let added = final(out)@.skip(old(out)@.len() as int);
                match r {
                    Ok(()) => {
                        &&& added.len() > 0
                        &&& added.last() == newline()
                        &&& no_newline(added.drop_last())
                        &&& avail == added + final(self).pending()
                    },
                    Err(e) => {
                        &&& no_newline(added)
                        &&& avail == added
                        &&& final(self).pending().len() == 0
                        &&& ended_by_read(final(self).last@, e)
                        &&& model_read_end(final(self).last@, *old(transport), *final(transport))
                    },
                }
            }),
    {
        let ghost f0 = self.fetched@;
        let ghost t0 = *transport;
        let ghost p0 = self.pending();
        let ghost o0 = out@;
        proof {
            lemma_model_fetch_none(t0, f0);
        }
        loop
            invariant
                self.wf(),
                transport.inv(),
                model_fetch(t0, *transport, arrived(f0, self.fetched@)),
                f0 == old(self).fetched@,
                t0 == *old(transport),
                p0 == old(self).pending(),
                o0 == old(out)@,
                f0.is_prefix_of(self.fetched@),
                o0.is_prefix_of(out@),
                no_newline(out@.skip(o0.len() as int)),
                p0 + arrived(f0, self.fetched@) == out@.skip(o0.len() as int) + self.pending(),
            decreases usize::MAX - out.len(),
        {
            if self.buffer_pos >= self.buffer_len {
                let ghost before = self.fetched@;
                let ghost tb = *transport;
                assert(self.pending() =~= Seq::<u8>::empty());
                let res = self.fill_buffer(transport);
                proof {
                    lemma_arrived_split(f0, before, self.fetched@);
                    lemma_model_fetch_chain(t0, tb, *transport, f0, before, self.fetched@);
                }
                match res {
                    Ok(()) => {
                        proof {
                            lemma_arrived_append(before, self.pending());
                        }
                        assert(arrived(f0, self.fetched@) =~= arrived(f0, before)
                            + self.pending());
                    },
                    Err(e) => {
                        assert(arrived(f0, self.fetched@) =~= arrived(f0, before));
                        return Err(e);
                    },
                }
                if self.buffer_len == 0 {
                    assert(self.pending() =~= Seq::<u8>::empty());
                    return Err(CopilotError::ConnectionClosed);
                }
            }
            let b = self.buffer[self.buffer_pos];
            let ghost added_before = out@.skip(o0.len() as int);
            let ghost pend_before = self.pending();
            self.buffer_pos += 1;
            out.push(b);
            assert(out@.skip(o0.len() as int) =~= added_before.push(b));
            assert(pend_before =~= seq![b] + self.pending());
            assert(added_before + pend_before =~= added_before.push(b) + self.pending());
            assert(o0.is_prefix_of(out@));
            if b == 10 {
                assert(added_before.push(b).drop_last() =~= added_before);
                return Ok(());
            }
        }
    }

    /// Reads exactly `n` bytes, first from the buffer, then from the transport.
    fn read_exact<T: Transport>(&mut self, transport: &mut T, n: usize) -> (r: Result<Vec<u8>>)
        requires
            old(self).wf(),
            old(transport).inv(),
        ensures
            final(self).wf(),
            final(transport).inv(),
            old(self).fetched@.is_prefix_of(final(self).fetched@),
            model_fetch(
                *old(transport),
                *final(transport),
                arrived(old(self).fetched@, final(self).fetched@),
            ),
            ({
                let avail = old(self).pending() + arrived(old(self).fetched@, final(self).fetched@);
                match r {
                    Ok(v) => v@.len() == n && avail == v@ + final(self).pending(),
                    Err(e) => {
                        &&& avail.len() < n
                        &&& final(self).pending().len() == 0
                        &&& ended_by_read(final(self).last@, e)
                        &&& model_read_end(final(self).last@, *old(transport), *final(transport))
                    },
                }
            }),
    {
        let ghost f0 = self.fetched@;
        let ghost t0 = *transport;
        let ghost p0 = self.pending();
        let mut message = vec![0u8; n];
        let mut total_read: usize = 0;
        while total_read < n && self.buffer_pos < self.buffer_len
            invariant
                self.wf(),
                self.fetched@ == f0,
                *transport == t0,
                transport.inv(),
                p0 == old(self).pending(),
                f0 == old(self).fetched@,
                t0 == *old(transport),
                message@.len() == n,
                total_read <= n,
                p0 == message@.take(total_read as int) + self.pending(),
            decreases n - total_read,
        {
            let ghost pend_before = self.pending();
            let ghost taken = message@.take(total_read as int);
            let b = self.buffer[self.buffer_pos];
            message[total_read] = b;
            total_read += 1;
            self.buffer_pos += 1;
            assert(message@.take(total_read as int) =~= taken.push(b));
            assert(pend_before =~= seq![b] + self.pending());
            assert(taken + pend_before =~= taken.push(b) + self.pending());
        }
        proof {
            lemma_model_fetch_none(t0, f0);
        }
        while total_read < n
            invariant
                self.wf(),
                transport.inv(),
                model_fetch(t0, *transport, arrived(f0, self.fetched@)),
                p0 == old(self).pending(),
                f0 == old(self).fetched@,
                t0 == *old(transport),
                f0.is_prefix_of(self.fetched@),
                message@.len() == n,
                total_read <= n,
                total_read < n ==> self.pending().len() == 0,
                p0 + arrived(f0, self.fetched@) == message@.take(total_read as int)
                    + self.pending(),
            decreases n - total_read,
        {
            let ghost before = self.fetched@;
            let ghost tb = *transport;
            let ghost taken = message@.take(total_read as int);
            let (_, tail) = message.as_mut_slice().split_at_mut(total_read);
            match transport.read(tail) {
                Ok(0) => {
                    self.last = Ghost(Some(Ok(0)));
                    proof {
                        lemma_model_fetch_none(tb, before);
                        if T::obeys_stream_model() {
                            assert(transport.received() =~= tb.received() + Seq::<u8>::empty());
                            assert(tb.remaining() =~= Seq::<u8>::empty() + transport.remaining());
                        }
                        lemma_arrived_split(f0, before, self.fetched@);
                        lemma_model_fetch_chain(t0, tb, *transport, f0, before, self.fetched@);
                    }
                    return Err(CopilotError::ConnectionClosed);
                },
                Ok(k) => {
                    let ghost got = message@.subrange(total_read as int, total_read + k);
                    self.fetched = Ghost(before + got);
                    self.last = Ghost(Some(Ok(k)));
                    proof {
                        lemma_arrived_append(before, got);
                        lemma_arrived_split(f0, before, self.fetched@);
                        if T::obeys_stream_model() {
                            assert(transport.received() =~= tb.received() + got);
                            let rem0 = tb.remaining();
                            assert(got =~= rem0.take(k as int));
                            assert(rem0 =~= rem0.take(k as int) + rem0.skip(k as int));
                            assert(tb.remaining() =~= got + transport.remaining());
                        }
                        lemma_model_fetch_chain(t0, tb, *transport, f0, before, self.fetched@);
                    }
                    assert(message@.take(total_read + k) =~= taken + got);
                    assert(arrived(f0, self.fetched@) =~= arrived(f0, before) + got);
                    total_read += k;
                },
                Err(e) => {
                    self.last = Ghost(Some(Err(e)));
                    proof {
                        lemma_model_fetch_none(tb, before);
                        if T::obeys_stream_model() {
                            assert(transport.received() =~= tb.received() + Seq::<u8>::empty());
                            assert(tb.remaining() =~= Seq::<u8>::empty() + transport.remaining());
                        }
                        lemma_arrived_split(f0, before, self.fetched@);
                        lemma_model_fetch_chain(t0, tb, *transport, f0, before, self.fetched@);
                    }
                    return Err(e);
                },
            }
        }
        assert(message@.take(n as int) =~= message@);
        Ok(message)
    }

    /// Reads one complete framed message.
    #[verifier::rlimit(50)]
    fn read_message<T: Transport>(&mut self, transport: &mut T) -> (r: Result<String>)
        requires
            old(self).wf(),
            old(transport).inv(),
        ensures
            final(self).wf(),
            final(transport).inv(),
            old(self).fetched@.is_prefix_of(final(self).fetched@),
            model_fetch(
                *old(transport),
                *final(transport),
                arrived(old(self).fetched@, final(self).fetched@),
            ),
            read_outcome(
                old(self).pending() + arrived(old(self).fetched@, final(self).fetched@),
                r,
                final(self).pending(),
            ),
            parse_frame(old(self).pending() + arrived(old(self).fetched@, final(self).fetched@))
                is Incomplete ==> (r matches Err(e) && ended_by_read(final(self).last@, e)
                && model_read_end(final(self).last@, *old(transport), *final(transport))),
    {
        let ghost f0 = self.fetched@;
        let ghost t0 = *transport;
        let ghost p0 = self.pending();
        let mut content_length: Option<usize> = None;
        let mut header: Vec<u8> = Vec::new();
        proof {
            lemma_model_fetch_none(t0, f0);
        }
        assert(p0 + arrived(f0, self.fetched@) =~= header@ + self.pending());
        loop
            invariant_except_break
                scan_headers(header@) == (HeaderScan::Reading {
                    line: Seq::<u8>::empty(),
                    length: content_length,
                }),
            invariant
                self.wf(),
                transport.inv(),
                model_fetch(t0, *transport, arrived(f0, self.fetched@)),
                f0 == old(self).fetched@,
                t0 == *old(transport),
                p0 == old(self).pending(),
                f0.is_prefix_of(self.fetched@),
                p0 + arrived(f0, self.fetched@) == header@ + self.pending(),
            ensures
                scan_headers(header@) == (HeaderScan::Complete {
                    end: header@.len(),
                    length: content_length,
                }),
            decreases usize::MAX - header.len(),
        {
            let start = header.len();
            let ghost h0 = header@;
            let ghost before = self.fetched@;
            let ghost tb = *transport;
            let ghost pend0 = self.pending();
            let res = self.read_line(transport, &mut header);
            let ghost added = header@.skip(start as int);
            proof {
                assert(header@ =~= h0 + added);
                lemma_arrived_split(f0, before, self.fetched@);
                lemma_model_fetch_chain(t0, tb, *transport, f0, before, self.fetched@);
                assert(p0 + arrived(f0, self.fetched@) =~= (p0 + arrived(f0, before)) + arrived(
                    before,
                    self.fetched@,
                ));
                assert(p0 + arrived(f0, self.fetched@) =~= h0 + (pend0 + arrived(
                    before,
                    self.fetched@,
                )));
            }
            match res {
                Err(e) => {
                    proof {
                        assert(p0 + arrived(f0, self.fetched@) =~= h0 + added);
                        lemma_scan_line_bytes(h0, added);
                        if T::obeys_stream_model() {
                            assert(tb.connected() == t0.connected());
                        }
                    }
                    return Err(e);
                },
                Ok(()) => {
                    assert(p0 + arrived(f0, self.fetched@) =~= header@ + self.pending());
                },
            }
            let ghost content = added.drop_last();
            proof {
                assert(added =~= content.push(newline()));
                lemma_scan_line(h0, content);
                assert(Seq::<u8>::empty() + content =~= content);
            }
            let mut end = header.len() - 1;
            if end > start && header[end - 1] == 13 {
                end -= 1;
            }
            let line = vstd::slice::slice_subrange(header.as_slice(), start, end);
            assert(line@ =~= strip_cr(content));
            if end == start {
                break;
            }
            match classify_header_line(line) {
                LengthHeader::Other => {},
                LengthHeader::Length(n) => {
                    content_length = Some(n);
                },
                LengthHeader::Invalid => {
                    let m = invalid_length_message(line);
                    proof {
                        let total = p0 + arrived(f0, self.fetched@);
                        lemma_scan_extends(header@, self.pending());
                        assert(total.skip(header@.len() as int) =~= self.pending());
                    }
                    return Err(CopilotError::Protocol(m));
                },
            }
        }
        let ghost h = header@;
        let ghost f1 = self.fetched@;
        let ghost t1 = *transport;
        let ghost pend1 = self.pending();
        proof {
            lemma_scan_extends(h, pend1);
        }
        match content_length {
            None => {
                proof {
                    let total = p0 + arrived(f0, self.fetched@);
                    assert(total.skip(h.len() as int) =~= pend1);
                }
                Err(CopilotError::Protocol(String::from_str("Missing Content-Length header")))
            },
            Some(n) => {
                let res = self.read_exact(transport, n);
                let ghost total = p0 + arrived(f0, self.fetched@);
                proof {
                    lemma_arrived_split(f0, f1, self.fetched@);
                    lemma_model_fetch_chain(t0, t1, *transport, f0, f1, self.fetched@);
                    assert(p0 + arrived(f0, f1) == h + pend1);
                    assert(total =~= (p0 + arrived(f0, f1)) + arrived(f1, self.fetched@));
                }
                assert(total =~= h + (pend1 + arrived(f1, self.fetched@)));
                proof {
                    lemma_scan_extends(h, pend1 + arrived(f1, self.fetched@));
                    if T::obeys_stream_model() {
                        assert(t1.connected() == t0.connected());
                    }
                }
                match res {
                    Err(e) => Err(e),
                    Ok(body) => {
                        assert(total =~= h + body@ + self.pending());
                        assert(total.subrange(h.len() as int, h.len() + n) =~= body@);
                        assert(total.skip(h.len() + n) =~= self.pending());
                        match string_from_utf8(body) {
                            Ok(s) => Ok(s),
                            Err(e) => {
                                let mut m = String::from_str("Invalid UTF-8 in message: ");
                                let ghost base = m@;
                                let detail = e.to_string();
                                m.append(detail.as_str());
                                assert(base.is_prefix_of(m@));
                                Err(CopilotError::Protocol(m))
                            },
                        }
                    },
                }
            },
        }
    }
}


// =============================================================================
// Content-Length Message Framer (LSP-style)
// =============================================================================

/// Handles Content-Length header framing for JSON-RPC messages.
///
/// Message format:
/// ```text
/// Content-Length: <length>\r\n
/// \r\n
/// <json-rpc-message>
/// ```
///
/// This is the standard LSP (Language Server Protocol) framing.
pub struct MessageFramer<T: Transport> {
    transport: T,
    input: ReadBuffer,
    /// Every byte handed to the transport's `write`, in order.
    output: Ghost<Seq<u8>>,
}

impl<T: Transport> MessageFramer<T> {
    /// The framer and its transport are well formed.
    pub closed spec fn wf(&self) -> bool {
        self.transport.inv() && self.input.wf()
    }

    /// Bytes read from the transport but not yet consumed by a message.
    pub closed spec fn buffered(&self) -> Seq<u8> {
        self.input.pending()
    }

    /// Every byte the framer has fetched from its transport, in order.
    pub closed spec fn fetched(&self) -> Seq<u8> {
        self.input.fetched@
    }

    /// The result of the framer's last read of its transport, if any.
    pub closed spec fn last_read(&self) -> Option<Result<usize>> {
        self.input.last@
    }

    /// Every byte the framer has handed to its transport's `write`, in order.
    pub closed spec fn handed(&self) -> Seq<u8> {
        self.output@
    }

    /// The wrapped transport.
    pub closed spec fn wrapped(&self) -> T {
        self.transport
    }

    /// Create a new message framer wrapping a transport.
    pub fn new(transport: T) -> (r: Self)
        ensures
            r.wrapped() == transport,
            r.buffered() == Seq::<u8>::empty(),
            r.fetched() == Seq::<u8>::empty(),
            r.last_read() is None,
            r.handed() == Seq::<u8>::empty(),
            r.wf() == transport.inv(),
    {
        MessageFramer { transport, input: ReadBuffer::new(), output: Ghost(Seq::empty()) }
    }

    /// Read a complete framed message.
    ///
    /// Returns the message content (without headers). The bytes considered are
    /// those buffered before the call followed by those fetched from the
    /// transport during it; what follows the frame stays buffered. For a
    /// transport that keeps the stream model, the fetched bytes are exactly
    /// those it delivered.
    pub fn read_message(&mut self) -> (r: Result<String>)
        requires
            old(self).wf(),
        ensures
            final(self).wf(),
            final(self).handed() == old(self).handed(),
            old(self).fetched().is_prefix_of(final(self).fetched()),
            model_fetch(
                old(self).wrapped(),
                final(self).wrapped(),
                arrived(old(self).fetched(), final(self).fetched()),
            ),
            read_outcome(
                old(self).buffered() + arrived(old(self).fetched(), final(self).fetched()),
                r,
                final(self).buffered(),
            ),
            parse_frame(old(self).buffered() + arrived(old(self).fetched(), final(self).fetched()))
                is Incomplete ==> (r matches Err(e) && ended_by_read(final(self).last_read(), e)),
            T::obeys_stream_model() && old(self).wrapped().connected() ==> read_outcome(
                old(self).buffered() + old(self).wrapped().remaining(),
                r,
                final(self).buffered() + final(self).wrapped().remaining(),
            ),
            T::obeys_stream_model() && old(self).wrapped().connected() && parse_frame(
                old(self).buffered() + old(self).wrapped().remaining(),
            ) is Incomplete ==> r matches Err(CopilotError::ConnectionClosed),
            T::obeys_stream_model() && parse_frame(
                old(self).buffered() + arrived(old(self).fetched(), final(self).fetched()),
            ) is Incomplete ==> r matches Err(CopilotError::ConnectionClosed),
            T::obeys_stream_model() && !old(self).wrapped().connected() ==> final(self).fetched()
                == old(self).fetched(),
    {
        let ghost b0 = self.input.pending();
        let ghost f0 = self.input.fetched@;
        let ghost t0 = self.transport;
        let r = self.input.read_message(&mut self.transport);
        proof {
            if T::obeys_stream_model() && !t0.connected() {
                assert(self.input.fetched@ =~= f0);
            }
            if T::obeys_stream_model() && t0.connected() {
                let got = arrived(f0, self.input.fetched@);
                assert(t0.remaining() == got + self.transport.remaining());
                lemma_read_whole_stream(b0, got, self.transport.remaining(), r, self.input.pending());
            }
        }
        r
    }

    /// Write a message with Content-Length framing.
    pub fn write_message(&mut self, message: &str) -> (r: Result<()>)
        requires
            old(self).wf(),
        ensures
            final(self).wf(),
            final(self).buffered() == old(self).buffered(),
            final(self).fetched() == old(self).fetched(),
            final(self).handed() == old(self).handed() + frame_bytes(message.spec_bytes()),
            T::obeys_stream_model() ==> (r is Ok <==> old(self).wrapped().connected()),
            T::obeys_stream_model() ==> (r is Err ==> r matches Err(CopilotError::ConnectionClosed)),
            T::obeys_stream_model() ==> final(self).wrapped().connected() == old(self).wrapped().connected(),
            T::obeys_stream_model() ==> final(self).wrapped().received() == old(self).wrapped().received(),
            T::obeys_stream_model() ==> final(self).wrapped().remaining() == old(self).wrapped().remaining(),
            T::obeys_stream_model() ==> match r {
                Ok(()) => final(self).wrapped().sent() == old(self).wrapped().sent() + frame_bytes(
                    message.spec_bytes(),
                ),
                Err(_) => final(self).wrapped().sent() == old(self).wrapped().sent(),
            },
    {
        let frame = encode_frame(message);
        self.output = Ghost(self.output@ + frame@);
        self.transport.write(frame.as_slice())
    }

    /// Get a reference to the underlying transport.
    pub fn transport(&self) -> (r: &T)
        ensures
            *r == self.wrapped(),
            self.wf() ==> r.inv(),
    {
        &self.transport
    }

    /// Get a mutable reference to the underlying transport.
    pub fn transport_mut(&mut self) -> (r: &mut T)
        ensures
            *r == old(self).wrapped(),
            final(self).wrapped() == *final(r),
            final(self).buffered() == old(self).buffered(),
            final(self).fetched() == old(self).fetched(),
            final(self).handed() == old(self).handed(),
            old(self).wf() ==> (final(self).wf() == final(r).inv()),
    {
        &mut self.transport
    }

    /// Consume the framer and return the transport.
    pub fn into_transport(self) -> (r: T)
        ensures
            r == self.wrapped(),
            self.wf() ==> r.inv(),
    {
        self.transport
    }
}

/// Message reader for parsing incoming framed messages.
pub struct MessageReader<R: Transport> {
    reader: R,
    input: ReadBuffer,
}

impl<R: Transport> MessageReader<R> {
    /// The reader and its transport are well formed.
    pub closed spec fn wf(&self) -> bool {
        self.reader.inv() && self.input.wf()
    }

    /// Bytes read but not yet consumed by a message.
    pub closed spec fn buffered(&self) -> Seq<u8> {
        self.input.pending()
    }

    /// Every byte the reader has fetched from its source, in order.
    pub closed spec fn fetched(&self) -> Seq<u8> {
        self.input.fetched@
    }

    /// The result of the reader's last read of its source, if any.
    pub closed spec fn last_read(&self) -> Option<Result<usize>> {
        self.input.last@
    }

    /// The wrapped byte source.
    pub closed spec fn source(&self) -> R {
        self.reader
    }

    /// Create a new message reader.
    pub fn new(reader: R) -> (r: Self)
        ensures
            r.source() == reader,
            r.buffered() == Seq::<u8>::empty(),
            r.fetched() == Seq::<u8>::empty(),
            r.last_read() is None,
            r.wf() == reader.inv(),
    {
        MessageReader { reader, input: ReadBuffer::new() }
    }

    /// Read a complete framed message.
    pub fn read_message(&mut self) -> (r: Result<String>)
        requires
            old(self).wf(),
        ensures
            final(self).wf(),
            old(self).fetched().is_prefix_of(final(self).fetched()),
            model_fetch(
                old(self).source(),
                final(self).source(),
                arrived(old(self).fetched(), final(self).fetched()),
            ),
            read_outcome(
                old(self).buffered() + arrived(old(self).fetched(), final(self).fetched()),
                r,
                final(self).buffered(),
            ),
            parse_frame(old(self).buffered() + arrived(old(self).fetched(), final(self).fetched()))
                is Incomplete ==> (r matches Err(e) && ended_by_read(final(self).last_read(), e)),
            R::obeys_stream_model() && old(self).source().connected() ==> read_outcome(
                old(self).buffered() + old(self).source().remaining(),
                r,
                final(self).buffered() + final(self).source().remaining(),
            ),
            R::obeys_stream_model() && old(self).source().connected() && parse_frame(
                old(self).buffered() + old(self).source().remaining(),
            ) is Incomplete ==> r matches Err(CopilotError::ConnectionClosed),
            R::obeys_stream_model() && parse_frame(
                old(self).buffered() + arrived(old(self).fetched(), final(self).fetched()),
            ) is Incomplete ==> r matches Err(CopilotError::ConnectionClosed),
            R::obeys_stream_model() && !old(self).source().connected() ==> final(self).fetched()
                == old(self).fetched(),
    {
        let ghost b0 = self.input.pending();
        let ghost f0 = self.input.fetched@;
        let ghost t0 = self.reader;
        let r = self.input.read_message(&mut self.reader);
        proof {
            if R::obeys_stream_model() && !t0.connected() {
                assert(self.input.fetched@ =~= f0);
            }
            if R::obeys_stream_model() && t0.connected() {
                let got = arrived(f0, self.input.fetched@);
                assert(t0.remaining() == got + self.reader.remaining());
                lemma_read_whole_stream(b0, got, self.reader.remaining(), r, self.input.pending());
            }
        }
        r
    }
}

/// Message writer for framing outgoing messages.
pub struct MessageWriter<W: Transport> {
    writer: W,
    /// Every byte handed to the sink's `write`, in order.
    output: Ghost<Seq<u8>>,
}

impl<W: Transport> MessageWriter<W> {
    /// The wrapped byte sink.
    pub closed spec fn sink(&self) -> W {
        self.writer
    }

    /// Every byte the writer has handed to its sink's `write`, in order.
    pub closed spec fn handed(&self) -> Seq<u8> {
        self.output@
    }

    /// Create a new message writer.
    pub fn new(writer: W) -> (r: Self)
        ensures
            r.sink() == writer,
            r.handed() == Seq::<u8>::empty(),
    {
        MessageWriter { writer, output: Ghost(Seq::empty()) }
    }

    /// Write a message with Content-Length framing.
    pub fn write_message(&mut self, message: &str) -> (r: Result<()>)
        requires
            old(self).sink().inv(),
        ensures
            final(self).sink().inv(),
            final(self).handed() == old(self).handed() + frame_bytes(message.spec_bytes()),
            W::obeys_stream_model() ==> (r is Ok <==> old(self).sink().connected()),
            W::obeys_stream_model() ==> (r is Err ==> r matches Err(CopilotError::ConnectionClosed)),
            W::obeys_stream_model() ==> final(self).sink().connected() == old(self).sink().connected(),
            W::obeys_stream_model() ==> final(self).sink().received() == old(self).sink().received(),
            W::obeys_stream_model() ==> final(self).sink().remaining() == old(self).sink().remaining(),
            W::obeys_stream_model() ==> match r {
                Ok(()) => final(self).sink().sent() == old(self).sink().sent() + frame_bytes(
                    message.spec_bytes(),
                ),
                Err(_) => final(self).sink().sent() == old(self).sink().sent(),
            },
    {
        let frame = encode_frame(message);
        self.output = Ghost(self.output@ + frame@);
        self.writer.write(frame.as_slice())
    }
}

// =============================================================================
// In-Memory Transport
// =============================================================================

/// In-memory transport, for tests: reads come from a fixed byte string and
/// writes are collected.
pub struct MemoryTransport {
    read_data: Vec<u8>,
    read_pos: usize,
    write_data: Vec<u8>,
    open: bool,
}

impl MemoryTransport {
    /// The byte string that reads deliver, from its start.
    pub closed spec fn data(&self) -> Seq<u8> {
        self.read_data@
    }

    /// Create a new memory transport with initial read data.
    pub fn new(read_data: Vec<u8>) -> (r: Self)
        ensures
            r.inv(),
            r.connected(),
            r.data() == read_data@,
            r.remaining() == read_data@,
            r.received() == Seq::<u8>::empty(),
            r.sent() == Seq::<u8>::empty(),
    {
        let r = MemoryTransport { read_data, read_pos: 0, write_data: Vec::new(), open: true };
        assert(r.remaining() =~= r.read_data@);
        assert(r.received() =~= Seq::<u8>::empty());
        r
    }

    /// Get the data that was written.
    pub fn written_data(&self) -> (r: &[u8])
        ensures
            r@ == self.sent(),
    {
        self.write_data.as_slice()
    }
}

/// A memory transport has delivered a prefix of its data and has the rest
/// still to deliver.
pub proof fn lemma_memory_stream(t: &MemoryTransport)
    requires
        t.inv(),
    ensures
        t.received() + t.remaining() == t.data(),
{
    assert(t.received() + t.remaining() =~= t.data());
}

impl Transport for MemoryTransport {
    open spec fn obeys_stream_model() -> bool {
        true
    }

    closed spec fn inv(&self) -> bool {
        self.read_pos <= self.read_data@.len()
    }

    closed spec fn received(&self) -> Seq<u8> {
        self.read_data@.take(self.read_pos as int)
    }

    closed spec fn remaining(&self) -> Seq<u8> {
        self.read_data@.skip(self.read_pos as int)
    }

    closed spec fn sent(&self) -> Seq<u8> {
        self.write_data@
    }

    closed spec fn connected(&self) -> bool {
        self.open
    }

    fn read(&mut self, buf: &mut [u8]) -> (r: Result<usize>)
        ensures
            final(self).data() == old(self).data(),
            old(self).connected() ==> (r matches Ok(n) && n == (if old(self).remaining().len()
                < old(buf)@.len() {
                old(self).remaining().len()
            } else {
                old(buf)@.len() as nat
            })),
            !old(self).connected() ==> r matches Err(CopilotError::ConnectionClosed),
    {
        if !self.open {
            return Err(CopilotError::ConnectionClosed);
        }
        let remaining = self.read_data.len() - self.read_pos;
        let to_read = if remaining < buf.len() {
            remaining
        } else {
            buf.len()
        };
        let mut i: usize = 0;
        while i < to_read
            invariant
                self.read_pos + to_read <= self.read_data.len(),
                self.read_pos == old(self).read_pos,
                self.read_data == old(self).read_data,
                self.write_data == old(self).write_data,
                self.open == old(self).open,
                to_read <= buf@.len() == old(buf)@.len(),
                0 <= i <= to_read,
                forall|k: int| 0 <= k < i ==> buf@[k] == self.read_data@[self.read_pos + k],
                forall|k: int| i <= k < buf@.len() ==> buf@[k] == old(buf)@[k],
            decreases to_read - i,
        {
            buf[i] = self.read_data[self.read_pos + i];
            i += 1;
        }
        let ghost old_received = self.received();
        let ghost old_remaining = self.remaining();
        assert(buf@.take(to_read as int) =~= old_remaining.take(to_read as int));
        assert(buf@.skip(to_read as int) =~= old(buf)@.skip(to_read as int));
        self.read_pos += to_read;
        assert(self.received() =~= old_received + buf@.take(to_read as int));
        assert(self.remaining() =~= old_remaining.skip(to_read as int));
        Ok(to_read)
    }

    fn write(&mut self, data: &[u8]) -> (r: Result<()>)
        ensures
            final(self).data() == old(self).data(),
            !old(self).connected() ==> r matches Err(CopilotError::ConnectionClosed),
    {
        if !self.open {
            return Err(CopilotError::ConnectionClosed);
        }
        let mut i: usize = 0;
        while i < data.len()
            invariant
                0 <= i <= data@.len(),
                self.read_pos == old(self).read_pos,
                self.read_data == old(self).read_data,
                self.open == old(self).open,
                self.write_data@ == old(self).write_data@ + data@.take(i as int),
            decreases data@.len() - i,
        {
            self.write_data.push(data[i]);
            assert(old(self).write_data@ + data@.take(i + 1) =~= (old(self).write_data@
                + data@.take(i as int)).push(data@[i as int]));
            i += 1;
        }
        assert(data@.take(i as int) =~= data@);
        Ok(())
    }

    fn close(&mut self) -> (r: Result<()>)
        ensures
            r is Ok,
            final(self).data() == old(self).data(),
    {
        self.open = false;
        Ok(())
    }

    fn is_open(&self) -> (b: bool) {
        self.open
    }
}

} // verus!
