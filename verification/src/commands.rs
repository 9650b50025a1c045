//! Command builders: pure, stateless functions that produce the command
//! value for each supported client command, with exact, case-sensitive
//! wire tokens.
//!
//! Builders validate shape at construction time — a message id must be
//! exactly 16 bytes — and signal a typed construction error otherwise.
//! They perform no topic or channel charset validation; that belongs to
//! the connection layer.

use crate::codec::texts_to_payloads;
use crate::codec::texts_bytes;
use crate::codec::wf_value;
use crate::codec::NsqValue;
use crate::codec::ValueView;
use crate::codec::MESSAGE_ID_LENGTH;
use crate::error::internal;
use crate::error::Error;
use crate::error::ErrorView;
use crate::text::dec_chars;
use crate::text::dec_string;
use vstd::prelude::*;
use vstd::string::StrSliceExecFns;
use vstd::string::StringExecFns;
use vstd::utf8::encode_utf8;

verus! {

/// `NOP`: no-op, the reply a heartbeat asks for.
pub fn nop() -> (v: NsqValue)
    ensures
        v@ == ValueView::Command("NOP"@),
{
    NsqValue::Command(String::from_str("NOP"))
}

/// `CLS`: cleanly close the connection.
pub fn cls() -> (v: NsqValue)
    ensures
        v@ == ValueView::Command("CLS"@),
{
    NsqValue::Command(String::from_str("CLS"))
}

/// `IDENTIFY` with the negotiation document as its payload; the document
/// is opaque to the codec.
pub fn identify(config: String) -> (v: NsqValue)
    requires
        encode_utf8(config@).len() < 0x1_0000_0000,
    ensures
        v@ == ValueView::CommandWithPayload("IDENTIFY"@, encode_utf8(config@)),
        wf_value(v@),
{
    let body = config.as_str().as_bytes_vec();
    NsqValue::CommandWithPayload(String::from_str("IDENTIFY"), body)
}

/// `SUB <topic> <channel>`: subscribe to a channel of a topic.
pub fn sub(topic: &str, channel: &str) -> (v: NsqValue)
    ensures
        v@ == ValueView::Command("SUB "@ + topic@ + " "@ + channel@),
{
    let mut cmd = String::from_str("SUB ");
    cmd.append(topic);
    cmd.append(" ");
    cmd.append(channel);
    NsqValue::Command(cmd)
}

/// `RDY <n>`: set the ready count, the flow-control credit.
pub fn rdy(i: usize) -> (v: NsqValue)
    ensures
        v@ == ValueView::Command("RDY "@ + dec_chars(i as nat)),
{
    let mut cmd = String::from_str("RDY ");
    let n = dec_string(i);
    cmd.append(n.as_str());
    NsqValue::Command(cmd)
}

/// `  V<n>`: the protocol version preamble sent on connecting.
pub fn version(v: usize) -> (c: NsqValue)
    ensures
        c@ == ValueView::Command("  V"@ + dec_chars(v as nat)),
{
    let mut cmd = String::from_str("  V");
    let n = dec_string(v);
    cmd.append(n.as_str());
    NsqValue::Command(cmd)
}

/// `FIN <id>`: finish (acknowledge) a message. The id must be exactly 16
/// bytes; any other shape is a construction error.
pub fn fin(id: &str) -> (r: Result<NsqValue, Error>)
    requires
        encode_utf8(id@).len() <= usize::MAX,
    ensures
        encode_utf8(id@).len() == MESSAGE_ID_LENGTH ==> (r matches Ok(v) && v@
            == ValueView::Command("FIN "@ + id@)),
        encode_utf8(id@).len() != MESSAGE_ID_LENGTH ==> (r matches Err(e) && e@
            == ErrorView::Unexpected(
            "message id must be exactly 16 bytes"@,
            None::<ValueView>,
        )),
{
    if id.len() != MESSAGE_ID_LENGTH {
        return Err(internal(String::from_str("message id must be exactly 16 bytes")));
    }
    let mut cmd = String::from_str("FIN ");
    cmd.append(id);
    Ok(NsqValue::Command(cmd))
}

/// `REQ <id> <timeout>`: requeue a message after the given timeout. The
/// id must be exactly 16 bytes; any other shape is a construction error.
pub fn req(id: &str, timeout: &str) -> (r: Result<NsqValue, Error>)
    requires
        encode_utf8(id@).len() <= usize::MAX,
    ensures
        encode_utf8(id@).len() == MESSAGE_ID_LENGTH ==> (r matches Ok(v) && v@
            == ValueView::Command("REQ "@ + id@ + " "@ + timeout@)),
        encode_utf8(id@).len() != MESSAGE_ID_LENGTH ==> (r matches Err(e) && e@
            == ErrorView::Unexpected(
            "message id must be exactly 16 bytes"@,
            None::<ValueView>,
        )),
{
    if id.len() != MESSAGE_ID_LENGTH {
        return Err(internal(String::from_str("message id must be exactly 16 bytes")));
    }
    let mut cmd = String::from_str("REQ ");
    cmd.append(id);
    cmd.append(" ");
    cmd.append(timeout);
    Ok(NsqValue::Command(cmd))
}

/// `TOUCH <id>`: reset the server-side timeout of an in-flight message.
/// The id must be exactly 16 bytes; any other shape is a construction
/// error.
pub fn touch(id: &str) -> (r: Result<NsqValue, Error>)
    requires
        encode_utf8(id@).len() <= usize::MAX,
    ensures
        encode_utf8(id@).len() == MESSAGE_ID_LENGTH ==> (r matches Ok(v) && v@
            == ValueView::Command("TOUCH "@ + id@)),
        encode_utf8(id@).len() != MESSAGE_ID_LENGTH ==> (r matches Err(e) && e@
            == ErrorView::Unexpected(
            "message id must be exactly 16 bytes"@,
            None::<ValueView>,
        )),
{
    if id.len() != MESSAGE_ID_LENGTH {
        return Err(internal(String::from_str("message id must be exactly 16 bytes")));
    }
    let mut cmd = String::from_str("TOUCH ");
    cmd.append(id);
    Ok(NsqValue::Command(cmd))
}

/// `PUB <topic>` with the message body as its payload.
pub fn publish(topic: &str, msg: &str) -> (v: NsqValue)
    requires
        encode_utf8(msg@).len() < 0x1_0000_0000,
    ensures
        v@ == ValueView::CommandWithPayload("PUB "@ + topic@, encode_utf8(msg@)),
        wf_value(v@),
{
    let mut cmd = String::from_str("PUB ");
    cmd.append(topic);
    let body = msg.as_bytes_vec();
    NsqValue::CommandWithPayload(cmd, body)
}

/// `DPUB <topic> <defer_time>` with the message body as its payload: a
/// publish the server delivers only after the given deferral.
pub fn dpub(topic: &str, defer_time: &str, msg: &str) -> (v: NsqValue)
    requires
        encode_utf8(msg@).len() < 0x1_0000_0000,
    ensures
        v@ == ValueView::CommandWithPayload(
            "DPUB "@ + topic@ + " "@ + defer_time@,
            encode_utf8(msg@),
        ),
        wf_value(v@),
{
    let mut cmd = String::from_str("DPUB ");
    cmd.append(topic);
    cmd.append(" ");
    cmd.append(defer_time);
    let body = msg.as_bytes_vec();
    NsqValue::CommandWithPayload(cmd, body)
}

/// `MPUB <topic>` with one length-prefixed payload per message, in list
/// order.
pub fn mpub(topic: &str, msgs: Vec<String>) -> (v: NsqValue)
    requires
        msgs@.len() < 0x1_0000_0000,
        forall|i: int|
            0 <= i < msgs@.len() ==> #[trigger] encode_utf8(msgs@[i]@).len() < 0x1_0000_0000,
    ensures
        v@ == ValueView::CommandWithPayloads("MPUB "@ + topic@, texts_bytes(msgs.deep_view())),
        wf_value(v@),
{
    let mut cmd = String::from_str("MPUB ");
    cmd.append(topic);
    let payloads = texts_to_payloads(&msgs);
    proof {
        assert forall|i: int| 0 <= i < payloads.deep_view().len() implies #[trigger] payloads.deep_view()[i].len()
            < 0x1_0000_0000 by {
            assert(payloads@[i]@ == encode_utf8(msgs@[i]@));
            assert(payloads.deep_view()[i] =~= payloads@[i]@);
        }
    }
    NsqValue::CommandWithPayloads(cmd, payloads)
}

} // verus!
