//! The protocol values, the frame decoder and the frame encoder.
//!
//! Wire format, bit-exact:
//!
//! ```text
//! Header:  4 bytes BE unsigned size = len(frame-type field) + len(payload)
//!          4 bytes BE          frame_type: 0 response, 1 error, 2 message
//! Response payload:  UTF-8 text; the sentinel "_heartbeat_" is a heartbeat
//! Error payload:     UTF-8 text (remote error message)
//! Message payload:   8 bytes BE unsigned timestamp in nanoseconds,
//!                    2 bytes BE unsigned attempt count,
//!                    16 bytes message id, remainder: opaque body bytes
//! Command line:      text + '\n'
//! Single payload:    4 bytes BE unsigned length + payload bytes
//! Multi payload:     4 bytes BE unsigned count, then per payload:
//!                    4 bytes BE unsigned length + payload bytes
//! ```

use crate::buffer::buf_advance;
use crate::buffer::buf_bytes;
use crate::buffer::buf_contents;
use crate::buffer::buf_extend;
use crate::buffer::buf_len;
use crate::buffer::buf_reserve;
use crate::error::Error;
use crate::error::ErrorView;
use crate::error::value;
use crate::text::utf8_to_string;
use crate::wire::be32;
use crate::wire::be_value;
use crate::wire::read_be_u32;
use crate::wire::read_be_u64;
use crate::wire::sub_vec;
use crate::wire::u32_to_be;
use bytes::BytesMut;
use vstd::prelude::*;
use vstd::string::StrSliceExecFns;
use vstd::string::StringExecFns;
use vstd::utf8::decode_utf8;
use vstd::utf8::encode_utf8;
use vstd::utf8::valid_utf8;

verus! {

/// Bytes in a frame header: the 4-byte size field and the 4-byte frame type.
pub const HEADER_LENGTH: usize = 8;

/// Frame-type discriminant of a response frame.
pub const FRAME_TYPE_RESPONSE: u32 = 0;

/// Frame-type discriminant of an error frame.
pub const FRAME_TYPE_ERROR: u32 = 1;

/// Frame-type discriminant of a message frame.
pub const FRAME_TYPE_MESSAGE: u32 = 2;

/// The newline that terminates every command line.
pub const NEWLINE: u8 = 0x0a;

/// Bytes of the timestamp field of a message payload.
pub const MESSAGE_TIMESTAMP_LENGTH: usize = 8;

/// Bytes of the attempt-count field of a message payload.
pub const MESSAGE_ATTEMPTS_LENGTH: usize = 2;

/// Bytes of a message id.
pub const MESSAGE_ID_LENGTH: usize = 16;

/// Bytes of a message payload before the body starts.
pub const MESSAGE_HEADER_LENGTH: usize = MESSAGE_TIMESTAMP_LENGTH + MESSAGE_ATTEMPTS_LENGTH
    + MESSAGE_ID_LENGTH;

/// The response text that marks a heartbeat frame.
pub open spec fn heartbeat_text() -> Seq<char> {
    "_heartbeat_"@
}

/// One protocol value: a decoded frame or a command to encode.
///
/// The command variants are produced by the builders in [`crate::commands`]
/// and consumed by [`NsqCodec::encode`]; the other variants are produced by
/// [`NsqCodec::decode`] and consumed by application logic.
#[derive(Clone, Debug, PartialEq, Eq)]
pub enum NsqValue {
    /// A server acknowledgement; the text is valid UTF-8.
    Response(String),
    /// A response whose text is the heartbeat sentinel, kept apart so it
    /// is never mistaken for an ordinary response.
    Heartbeat,
    /// A server-reported protocol error, with the verbatim message.
    RemoteError(String),
    /// A delivered message. The id is exactly 16 bytes; the body is an
    /// opaque byte sequence with no charset guarantee.
    Message { timestamp_ns: u64, message_id: Vec<u8>, body: Vec<u8> },
    /// A bare command line with no payload.
    Command(String),
    /// A command line with one length-prefixed payload.
    CommandWithPayload(String, Vec<u8>),
    /// A command line with an ordered list of length-prefixed payloads;
    /// the list order is the wire order.
    CommandWithPayloads(String, Vec<Vec<u8>>),
}

/// The mathematical shape of an [`NsqValue`].
pub enum ValueView {
    Response(Seq<char>),
    Heartbeat,
    RemoteError(Seq<char>),
    Message { timestamp_ns: nat, message_id: Seq<u8>, body: Seq<u8> },
    Command(Seq<char>),
    CommandWithPayload(Seq<char>, Seq<u8>),
    CommandWithPayloads(Seq<char>, Seq<Seq<u8>>),
}

impl View for NsqValue {
    type V = ValueView;

    open spec fn view(&self) -> ValueView {
        match self {
            NsqValue::Response(t) => ValueView::Response(t@),
            NsqValue::Heartbeat => ValueView::Heartbeat,
            NsqValue::RemoteError(t) => ValueView::RemoteError(t@),
            NsqValue::Message { timestamp_ns, message_id, body } => ValueView::Message {
                timestamp_ns: *timestamp_ns as nat,
                message_id: message_id@,
                body: body@,
            },
            NsqValue::Command(t) => ValueView::Command(t@),
            NsqValue::CommandWithPayload(t, p) => ValueView::CommandWithPayload(t@, p@),
            NsqValue::CommandWithPayloads(t, ps) => ValueView::CommandWithPayloads(
                t@,
                ps.deep_view(),
            ),
        }
    }
}

/// Whether a value is one of the command variants the encoder accepts.
pub open spec fn is_command(v: ValueView) -> bool {
    ||| v is Command
    ||| v is CommandWithPayload
    ||| v is CommandWithPayloads
}

/// Shape limits the wire format imposes on a value: every payload and
/// every payload count must fit its 4-byte length field, and a message id
/// is exactly 16 bytes.
pub open spec fn wf_value(v: ValueView) -> bool {
    match v {
        ValueView::Message { message_id, .. } => message_id.len() == MESSAGE_ID_LENGTH,
        ValueView::CommandWithPayload(_, p) => p.len() < 0x1_0000_0000,
        ValueView::CommandWithPayloads(_, ps) => ps.len() < 0x1_0000_0000 && (forall|i: int|
            0 <= i < ps.len() ==> #[trigger] ps[i].len() < 0x1_0000_0000),
        _ => true,
    }
}

/// The three-way outcome of one decode call. Needing more bytes is a
/// distinct outcome, not an error and not a silently swallowed nothing.
#[derive(Clone, Debug, PartialEq)]
pub enum DecodeOutcome {
    /// Too few bytes for one complete frame; nothing was consumed. Wait
    /// for more bytes and call again.
    Pending,
    /// One complete frame, removed from the buffer.
    Frame(NsqValue),
    /// The bytes at the front are not a decodable frame; nothing was
    /// consumed, and the stream must be treated as desynchronized.
    Failed(Error),
}

/// The mathematical shape of a [`DecodeOutcome`].
pub enum DecodeView {
    Pending,
    Frame(ValueView),
    Failed(ErrorView),
}

impl View for DecodeOutcome {
    type V = DecodeView;

    open spec fn view(&self) -> DecodeView {
        match self {
            DecodeOutcome::Pending => DecodeView::Pending,
            DecodeOutcome::Frame(v) => DecodeView::Frame(v@),
            DecodeOutcome::Failed(e) => DecodeView::Failed(e@),
        }
    }
}

/// What decoding the front of `b` yields, following the wire format: with
/// fewer than 8 bytes, or fewer than the declared frame, the outcome is
/// `Pending`; a complete frame is decoded by its frame type; a size field
/// below 4 (too small to cover the frame-type field) is malformed, and an
/// unrecognized frame type is a typed failure, never ignored.
pub open spec fn spec_decode(b: Seq<u8>) -> DecodeView {
    if b.len() < HEADER_LENGTH {
        DecodeView::Pending
    } else {
        let size = be_value(b.subrange(0, 4));
        if size < 4 {
            DecodeView::Failed(ErrorView::MalformedFrame)
        } else if b.len() < 4 + size {
            DecodeView::Pending
        } else {
            let frame_type = be_value(b.subrange(4, 8));
            let payload = b.subrange(8, 4 + size as int);
            if frame_type == FRAME_TYPE_RESPONSE {
                if valid_utf8(payload) {
                    if decode_utf8(payload) == heartbeat_text() {
                        DecodeView::Frame(ValueView::Heartbeat)
                    } else {
                        DecodeView::Frame(ValueView::Response(decode_utf8(payload)))
                    }
                } else {
                    DecodeView::Failed(ErrorView::InvalidEncoding)
                }
            } else if frame_type == FRAME_TYPE_ERROR {
                if valid_utf8(payload) {
                    DecodeView::Frame(ValueView::RemoteError(decode_utf8(payload)))
                } else {
                    DecodeView::Failed(ErrorView::InvalidEncoding)
                }
            } else if frame_type == FRAME_TYPE_MESSAGE {
                if payload.len() < MESSAGE_HEADER_LENGTH {
                    DecodeView::Failed(ErrorView::MalformedFrame)
                } else {
                    DecodeView::Frame(
                        ValueView::Message {
                            timestamp_ns: be_value(
                                payload.subrange(0, MESSAGE_TIMESTAMP_LENGTH as int),
                            ),
                            message_id: payload.subrange(
                                (MESSAGE_TIMESTAMP_LENGTH + MESSAGE_ATTEMPTS_LENGTH) as int,
                                MESSAGE_HEADER_LENGTH as int,
                            ),
                            body: payload.skip(MESSAGE_HEADER_LENGTH as int),
                        },
                    )
                }
            } else {
                DecodeView::Failed(ErrorView::UnknownFrameType(frame_type as u32))
            }
        }
    }
}

/// The bytes left after one decode call on `b`: a decoded frame is removed
/// whole — the 8-byte header and its payload, exactly `4 + size` bytes —
/// while `Pending` and every failure consume nothing.
pub open spec fn spec_remaining(b: Seq<u8>) -> Seq<u8> {
    if spec_decode(b) is Frame {
        b.skip(4 + be_value(b.subrange(0, 4)) as int)
    } else {
        b
    }
}

/// The wire bytes of one length-prefixed payload entry: a 4-byte
/// big-endian length, then the payload bytes, with no terminator.
pub open spec fn payload_entry(p: Seq<u8>) -> Seq<u8> {
    be32(p.len()) + p
}

/// The wire bytes of a payload list: each entry length-prefixed, in list
/// order, concatenated with no delimiter.
pub open spec fn payload_entries(ps: Seq<Seq<u8>>) -> Seq<u8>
    decreases ps.len(),
{
    if ps.len() == 0 {
        Seq::empty()
    } else {
        payload_entry(ps.first()) + payload_entries(ps.drop_first())
    }
}

/// The UTF-8 bytes of each text, in order.
pub open spec fn texts_bytes(ts: Seq<Seq<char>>) -> Seq<Seq<u8>> {
    ts.map_values(|t: Seq<char>| encode_utf8(t))
}

/// The exact wire bytes of a command value: the command line and its
/// newline, then — depending on the variant — nothing, one length-prefixed
/// payload, or a 4-byte big-endian entry count followed by the entries.
pub open spec fn spec_encoded(v: ValueView) -> Seq<u8>
    recommends
        is_command(v),
{
    match v {
        ValueView::Command(t) => encode_utf8(t) + seq![NEWLINE],
        ValueView::CommandWithPayload(t, p) => encode_utf8(t) + seq![NEWLINE] + payload_entry(p),
        ValueView::CommandWithPayloads(t, ps) => encode_utf8(t) + seq![NEWLINE] + be32(ps.len())
            + payload_entries(ps),
        _ => Seq::empty(),
    }
}

pub proof fn lemma_payload_entries_push(ps: Seq<Seq<u8>>, p: Seq<u8>)
    ensures
        payload_entries(ps.push(p)) == payload_entries(ps) + payload_entry(p),
    decreases ps.len(),
{
    reveal_with_fuel(payload_entries, 2);
    if ps.len() == 0 {
        assert(ps.push(p).first() == p);
        assert(ps.push(p).drop_first() =~= Seq::<Seq<u8>>::empty());
        assert(payload_entries(ps.push(p).drop_first()) == Seq::<u8>::empty());
        assert(payload_entries(ps.push(p)) =~= payload_entries(ps) + payload_entry(p));
    } else {
        assert(ps.push(p).first() == ps.first());
        assert(ps.push(p).drop_first() =~= ps.drop_first().push(p));
        lemma_payload_entries_push(ps.drop_first(), p);
        assert(payload_entries(ps.push(p)) =~= payload_entries(ps) + payload_entry(p));
    }
}

/// A buffer shorter than one 8-byte header yields `Pending` and is left
/// exactly as given: zero bytes consumed.
pub proof fn lemma_short_buffer_pending(b: Seq<u8>)
    requires
        b.len() < HEADER_LENGTH,
    ensures
        spec_decode(b) == DecodeView::Pending,
        spec_remaining(b) == b,
{
}

/// A buffer whose declared size exceeds the bytes available yields
/// `Pending`, not a failure, and is left exactly as given.
pub proof fn lemma_incomplete_frame_pending(b: Seq<u8>)
    requires
        b.len() >= HEADER_LENGTH,
        b.len() < 4 + be_value(b.subrange(0, 4)),
    ensures
        spec_decode(b) == DecodeView::Pending,
        spec_remaining(b) == b,
{
}

/// Where the declared size matches the payload actually present — `frame`
/// is exactly one complete frame — the decode outcome is decided by the
/// frame alone, and a successful decode consumes exactly the frame, the
/// 8-byte header plus its payload, however many bytes follow it.
pub proof fn lemma_decode_consumes_exactly_one_frame(frame: Seq<u8>, rest: Seq<u8>)
    requires
        frame.len() >= HEADER_LENGTH,
        be_value(frame.subrange(0, 4)) == frame.len() - 4,
    ensures
        spec_decode(frame + rest) == spec_decode(frame),
        spec_decode(frame) is Frame ==> spec_remaining(frame + rest) == rest,
{
    let b = frame + rest;
    let size = be_value(frame.subrange(0, 4));
    assert(b.subrange(0, 4) =~= frame.subrange(0, 4));
    assert(b.subrange(4, 8) =~= frame.subrange(4, 8));
    assert(b.subrange(8, 4 + size as int) =~= frame.subrange(8, 4 + size as int));
    assert(b.skip(4 + size as int) =~= rest);
}

/// A response frame whose text is the heartbeat sentinel decodes to
/// `Heartbeat`: no decode outcome is ever a plain `Response` carrying the
/// sentinel text.
pub proof fn lemma_heartbeat_never_plain_response(b: Seq<u8>)
    ensures
        spec_decode(b) != DecodeView::Frame(ValueView::Response(heartbeat_text())),
{
}

/// A complete response frame whose text decodes to the heartbeat sentinel
/// yields `Heartbeat`.
pub proof fn lemma_heartbeat_frame_decodes_to_heartbeat(b: Seq<u8>)
    requires
        b.len() >= HEADER_LENGTH,
        be_value(b.subrange(0, 4)) >= 4,
        b.len() >= 4 + be_value(b.subrange(0, 4)),
        be_value(b.subrange(4, 8)) == FRAME_TYPE_RESPONSE,
        valid_utf8(b.subrange(8, 4 + be_value(b.subrange(0, 4)) as int)),
        decode_utf8(b.subrange(8, 4 + be_value(b.subrange(0, 4)) as int)) == heartbeat_text(),
    ensures
        spec_decode(b) == DecodeView::Frame(ValueView::Heartbeat),
{
}

/// Every decoded frame satisfies the data-model shape invariants; in
/// particular, a decoded message id is exactly 16 bytes.
pub proof fn lemma_decoded_frames_are_well_formed(b: Seq<u8>)
    ensures
        spec_decode(b) matches DecodeView::Frame(v) ==> wf_value(v),
{
}

/// The frame type decides the decoded variant: a `RemoteError` frame
/// comes only from the error discriminant and a `Response` or `Heartbeat`
/// only from the response discriminant, so the two are never conflated.
pub proof fn lemma_frame_type_determines_variant(b: Seq<u8>)
    ensures
        (spec_decode(b) matches DecodeView::Frame(v) && v is RemoteError) ==> be_value(
            b.subrange(4, 8),
        ) == FRAME_TYPE_ERROR,
        (spec_decode(b) matches DecodeView::Frame(v) && (v is Response || v is Heartbeat))
            ==> be_value(b.subrange(4, 8)) == FRAME_TYPE_RESPONSE,
{
}

/// A complete error-type frame with UTF-8 text decodes to `RemoteError`
/// carrying the verbatim message.
pub proof fn lemma_error_frame_remote_error(b: Seq<u8>)
    requires
        b.len() >= HEADER_LENGTH,
        be_value(b.subrange(0, 4)) >= 4,
        b.len() >= 4 + be_value(b.subrange(0, 4)),
        be_value(b.subrange(4, 8)) == FRAME_TYPE_ERROR,
        valid_utf8(b.subrange(8, 4 + be_value(b.subrange(0, 4)) as int)),
    ensures
        spec_decode(b) == DecodeView::Frame(
            ValueView::RemoteError(decode_utf8(b.subrange(8, 4 + be_value(b.subrange(0, 4)) as int))),
        ),
{
}

/// An unrecognized frame type in a complete frame is a typed failure
/// carrying the raw discriminant — never an empty success — and the
/// buffer is left exactly as given, so the next call sees an unambiguous
/// buffer.
pub proof fn lemma_unknown_frame_type_failure(b: Seq<u8>)
    requires
        b.len() >= HEADER_LENGTH,
        be_value(b.subrange(0, 4)) >= 4,
        b.len() >= 4 + be_value(b.subrange(0, 4)),
        be_value(b.subrange(4, 8)) != FRAME_TYPE_RESPONSE,
        be_value(b.subrange(4, 8)) != FRAME_TYPE_ERROR,
        be_value(b.subrange(4, 8)) != FRAME_TYPE_MESSAGE,
    ensures
        spec_decode(b) == DecodeView::Failed(
            ErrorView::UnknownFrameType(be_value(b.subrange(4, 8)) as u32),
        ),
        spec_remaining(b) == b,
{
}

/// Append the command line and its newline terminator.
fn write_cmd(buf: &mut BytesMut, cmd: &str)
    ensures
        buf_bytes(*final(buf)) == buf_bytes(*old(buf)) + encode_utf8(cmd@) + seq![NEWLINE],
{
    let cmd_bytes = cmd.as_bytes_vec();
    buf_reserve(buf, cmd_bytes.len().saturating_add(1));
    buf_extend(buf, &cmd_bytes);
    let mut nl: Vec<u8> = Vec::new();
    nl.push(NEWLINE);
    buf_extend(buf, &nl);
    proof {
        assert(nl@ =~= seq![NEWLINE]);
        assert(buf_bytes(*buf) =~= buf_bytes(*old(buf)) + encode_utf8(cmd@) + seq![NEWLINE]);
    }
}

/// Append one length-prefixed payload entry.
fn write_payload(buf: &mut BytesMut, p: &Vec<u8>)
    requires
        p@.len() < 0x1_0000_0000,
    ensures
        buf_bytes(*final(buf)) == buf_bytes(*old(buf)) + payload_entry(p@),
{
    let len_bytes = u32_to_be(p.len() as u32);
    buf_reserve(buf, p.len().saturating_add(4));
    buf_extend(buf, &len_bytes);
    buf_extend(buf, p);
    proof {
        assert(buf_bytes(*buf) =~= buf_bytes(*old(buf)) + payload_entry(p@));
    }
}

/// Append a payload list: the 4-byte big-endian entry count, then each
/// entry length-prefixed, in order.
fn write_payload_list(buf: &mut BytesMut, ps: &Vec<Vec<u8>>)
    requires
        ps@.len() < 0x1_0000_0000,
        forall|i: int| 0 <= i < ps@.len() ==> #[trigger] ps@[i]@.len() < 0x1_0000_0000,
    ensures
        buf_bytes(*final(buf)) == buf_bytes(*old(buf)) + be32(ps@.len()) + payload_entries(
            ps.deep_view(),
        ),
{
    let count_bytes = u32_to_be(ps.len() as u32);
    buf_extend(buf, &count_bytes);
    let mut i: usize = 0;
    while i < ps.len()
        invariant
            i <= ps@.len() < 0x1_0000_0000,
            forall|k: int| 0 <= k < ps@.len() ==> #[trigger] ps@[k]@.len() < 0x1_0000_0000,
            buf_bytes(*buf) == buf_bytes(*old(buf)) + be32(ps@.len()) + payload_entries(
                ps.deep_view().take(i as int),
            ),
        decreases ps@.len() - i,
    {
        proof {
            assert(ps@[i as int]@.len() < 0x1_0000_0000);
        }
        write_payload(buf, &ps[i]);
        proof {
            lemma_payload_entries_push(ps.deep_view().take(i as int), ps@[i as int]@);
            assert(ps.deep_view().take(i as int).push(ps@[i as int]@) =~~= ps.deep_view().take(
                i as int + 1,
            ));
        }
        i = i + 1;
    }
    proof {
        assert(ps.deep_view().take(ps@.len() as int) =~= ps.deep_view());
    }
}

/// The UTF-8 bytes of each text, as payload vectors, in order.
pub(crate) fn texts_to_payloads(ts: &Vec<String>) -> (r: Vec<Vec<u8>>)
    ensures
        r.deep_view() == texts_bytes(ts.deep_view()),
        r@.len() == ts@.len(),
        forall|k: int| 0 <= k < ts@.len() ==> #[trigger] r@[k]@ == encode_utf8(ts@[k]@),
{
    let mut r: Vec<Vec<u8>> = Vec::new();
    let mut i: usize = 0;
    while i < ts.len()
        invariant
            i <= ts@.len(),
            r@.len() == i,
            forall|k: int| 0 <= k < i ==> #[trigger] r@[k]@ == encode_utf8(ts@[k]@),
        decreases ts@.len() - i,
    {
        r.push(ts[i].as_str().as_bytes_vec());
        i = i + 1;
    }
    proof {
        assert(r.deep_view() =~~= texts_bytes(ts.deep_view()));
    }
    r
}

/// Append one length-prefixed message payload: its 4-byte big-endian byte
/// count, then its UTF-8 bytes — the payload part of a command such as
/// PUB or DPUB.
pub fn write_msg(buf: &mut BytesMut, msg: String)
    requires
        encode_utf8(msg@).len() < 0x1_0000_0000,
    ensures
        buf_bytes(*final(buf)) == buf_bytes(*old(buf)) + payload_entry(encode_utf8(msg@)),
{
    let bytes = msg.as_str().as_bytes_vec();
    write_payload(buf, &bytes);
}

/// Append a whole multi-payload command: the command line with its
/// newline, the 4-byte big-endian message count, then each message
/// length-prefixed, in list order.
pub fn write_mmsg(buf: &mut BytesMut, cmd: String, msgs: Vec<String>)
    requires
        msgs@.len() < 0x1_0000_0000,
        forall|i: int|
            0 <= i < msgs@.len() ==> #[trigger] encode_utf8(msgs@[i]@).len() < 0x1_0000_0000,
    ensures
        buf_bytes(*final(buf)) == buf_bytes(*old(buf)) + encode_utf8(cmd@) + seq![NEWLINE] + be32(
            msgs@.len(),
        ) + payload_entries(texts_bytes(msgs.deep_view())),
{
    write_cmd(buf, cmd.as_str());
    let payloads = texts_to_payloads(&msgs);
    write_payload_list(buf, &payloads);
}

/// The codec. It is stateless: each call is an in-memory transform over
/// the caller-owned buffer it is handed.
pub struct NsqCodec;

impl NsqCodec {
    /// Extract at most one complete frame from the front of `buf`.
    ///
    /// A buffer holding less than one complete frame yields `Pending`,
    /// which is side-effect-free: zero bytes are consumed, so the owning
    /// loop can wait for more bytes and retry. A decoded frame is removed
    /// whole — exactly the header plus its payload. A failure consumes
    /// nothing, and the stream must be treated as desynchronized (see
    /// [`Error`]). Callers loop until `Pending` to drain several buffered
    /// frames.
    pub fn decode(&self, buf: &mut BytesMut) -> (r: DecodeOutcome)
        ensures
            r@ == spec_decode(buf_bytes(*old(buf))),
            buf_bytes(*final(buf)) == spec_remaining(buf_bytes(*old(buf))),
    {
        let ghost b0 = buf_bytes(*buf);
        let n = buf_len(buf);
        if n < HEADER_LENGTH {
            return DecodeOutcome::Pending;
        }
        let v = buf_contents(buf);
        let size = read_be_u32(&v, 0) as usize;
        if size < 4 {
            return DecodeOutcome::Failed(Error::MalformedFrame);
        }
        if n - 4 < size {
            return DecodeOutcome::Pending;
        }
        let total = 4 + size;
        let frame_type = read_be_u32(&v, 4);
        let payload = sub_vec(&v, HEADER_LENGTH, total);
        proof {
            assert(payload@ == b0.subrange(8, 4 + size as int));
        }
        if frame_type == FRAME_TYPE_RESPONSE {
            match utf8_to_string(&payload) {
                Some(text) => {
                    buf_advance(buf, total);
                    let heartbeat = String::from_str("_heartbeat_");
                    if text == heartbeat {
                        DecodeOutcome::Frame(NsqValue::Heartbeat)
                    } else {
                        DecodeOutcome::Frame(NsqValue::Response(text))
                    }
                },
                None => DecodeOutcome::Failed(Error::InvalidEncoding),
            }
        } else if frame_type == FRAME_TYPE_ERROR {
            match utf8_to_string(&payload) {
                Some(text) => {
                    buf_advance(buf, total);
                    DecodeOutcome::Frame(NsqValue::RemoteError(text))
                },
                None => DecodeOutcome::Failed(Error::InvalidEncoding),
            }
        } else if frame_type == FRAME_TYPE_MESSAGE {
            if size - 4 < MESSAGE_HEADER_LENGTH {
                return DecodeOutcome::Failed(Error::MalformedFrame);
            }
            let timestamp_ns = read_be_u64(&payload, 0);
            // the 2-byte attempt count is not carried in the value
            let id_start = MESSAGE_TIMESTAMP_LENGTH + MESSAGE_ATTEMPTS_LENGTH;
            let message_id = sub_vec(&payload, id_start, MESSAGE_HEADER_LENGTH);
            let body = sub_vec(&payload, MESSAGE_HEADER_LENGTH, payload.len());
            buf_advance(buf, total);
            proof {
                assert(body@ =~= payload@.skip(MESSAGE_HEADER_LENGTH as int));
            }
            DecodeOutcome::Frame(NsqValue::Message { timestamp_ns, message_id, body })
        } else {
            DecodeOutcome::Failed(Error::UnknownFrameType(frame_type))
        }
    }

    /// Serialize one command value, appending its exact wire bytes to
    /// `buf`. Encoding never suspends and never fails for a command
    /// value; handing it a decoded variant is a caller defect, rejected
    /// with a typed `Unexpected` error that leaves the buffer untouched.
    pub fn encode(&self, msg: NsqValue, buf: &mut BytesMut) -> (r: Result<(), Error>)
        requires
            wf_value(msg@),
        ensures
            is_command(msg@) ==> r is Ok && buf_bytes(*final(buf)) == buf_bytes(*old(buf))
                + spec_encoded(msg@),
            !is_command(msg@) ==> (r matches Err(e) && e@ == ErrorView::Unexpected(
                "cannot encode a decode-only value"@,
                Some(msg@),
            ) && buf_bytes(*final(buf)) == buf_bytes(*old(buf))),
    {
        let ghost m = msg@;
        match msg {
            NsqValue::Command(cmd) => {
                write_cmd(buf, cmd.as_str());
                proof {
                    assert(buf_bytes(*buf) =~= buf_bytes(*old(buf)) + spec_encoded(m));
                }
                Ok(())
            },
            NsqValue::CommandWithPayload(cmd, payload) => {
                write_cmd(buf, cmd.as_str());
                write_payload(buf, &payload);
                proof {
                    assert(buf_bytes(*buf) =~= buf_bytes(*old(buf)) + spec_encoded(m));
                }
                Ok(())
            },
            NsqValue::CommandWithPayloads(cmd, payloads) => {
                write_cmd(buf, cmd.as_str());
                proof {
                    assert forall|i: int| 0 <= i < payloads@.len() implies #[trigger] payloads@[i]@.len()
                        < 0x1_0000_0000 by {
                        assert(payloads.deep_view()[i].len() < 0x1_0000_0000);
                        assert(payloads.deep_view()[i] =~= payloads@[i]@);
                    }
                }
                write_payload_list(buf, &payloads);
                proof {
                    assert(buf_bytes(*buf) =~= buf_bytes(*old(buf)) + spec_encoded(m));
                }
                Ok(())
            },
            other => Err(value(String::from_str("cannot encode a decode-only value"), other)),
        }
    }
}

} // verus!
