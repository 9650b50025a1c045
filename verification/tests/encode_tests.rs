use bytes::BytesMut;
use nsqueue::NsqCodec;
use nsqueue::NsqValue;

fn encode_command(text: &str) -> BytesMut {
    let codec = NsqCodec;
    let mut buf = BytesMut::new();
    let r = codec.encode(NsqValue::Command(text.to_owned()), &mut buf);
    assert!(r.is_ok());
    buf
}

fn encode_with_payload(text: &str, payload: &str) -> BytesMut {
    let codec = NsqCodec;
    let mut buf = BytesMut::new();
    let v = NsqValue::CommandWithPayload(text.to_owned(), payload.as_bytes().to_vec());
    let r = codec.encode(v, &mut buf);
    assert!(r.is_ok());
    buf
}

#[test]
fn encode_sub_test() {
    let buf = encode_command("SUB topic channel");
    assert_eq!(&b"SUB topic channel\n"[..], &buf[..]);
}

#[test]
fn encode_v2_test() {
    let buf = encode_command("  V2");
    assert_eq!(&b"  V2\n"[..], &buf[..]);
}

#[test]
fn encode_nop_test() {
    let buf = encode_command("NOP");
    assert_eq!(&b"NOP\n"[..], &buf[..]);
}

#[test]
fn encode_cls_test() {
    let buf = encode_command("CLS");
    assert_eq!(&b"CLS\n"[..], &buf[..]);
}

#[test]
fn encode_req_test() {
    let buf = encode_command("REQ 03ff");
    assert_eq!(&b"REQ 03ff\n"[..], &buf[..]);
}

#[test]
fn encode_dry_test() {
    let buf = encode_command("DRY 0");
    assert_eq!(&b"DRY 0\n"[..], &buf[..]);
}

#[test]
fn encode_indentify_test() {
    let buf = encode_with_payload("IDENTIFY", "{}");
    assert_eq!(
        &[73, 68, 69, 78, 84, 73, 70, 89, 10, 0, 0, 0, 2, 123, 125][..],
        &buf[..]
    );
}

#[test]
fn encode_pub_test() {
    let buf = encode_with_payload("PUB test", "hello world");
    assert_eq!(
        &[
            80, 85, 66, 32, 116, 101, 115, 116, 10, 0, 0, 0, 11, 104, 101, 108, 108, 111, 32, 119,
            111, 114, 108, 100
        ][..],
        &buf[..]
    );
}

#[test]
fn encode_pub_utf8_test() {
    // a multi-byte body gets a length prefix of its byte count (6), not
    // its character count (3)
    let buf = encode_with_payload("PUB test", "©¥£");
    assert_eq!(
        &[80, 85, 66, 32, 116, 101, 115, 116, 10, 0, 0, 0, 6, 194, 169, 194, 165, 194, 163][..],
        &buf[..]
    );
}

#[test]
fn encode_mpub_test() {
    let codec = NsqCodec;
    let mut buf = BytesMut::new();
    let msgs: Vec<Vec<u8>> = vec![b"hello".to_vec(), b"world".to_vec()];
    let v = NsqValue::CommandWithPayloads("MPUB test".to_owned(), msgs);
    assert!(codec.encode(v, &mut buf).is_ok());
    assert_eq!(
        &[
            77, 80, 85, 66, 32, 116, 101, 115, 116, 10, 0, 0, 0, 2, 0, 0, 0, 5, 104, 101, 108,
            108, 111, 0, 0, 0, 5, 119, 111, 114, 108, 100
        ][..],
        &buf[..]
    );
}

#[test]
fn encode_empty_payload_list() {
    let codec = NsqCodec;
    let mut buf = BytesMut::new();
    let v = NsqValue::CommandWithPayloads("MPUB test".to_owned(), Vec::new());
    assert!(codec.encode(v, &mut buf).is_ok());
    assert_eq!(&b"MPUB test\n\x00\x00\x00\x00"[..], &buf[..]);
}

#[test]
fn encode_decode_only_value_rejected() {
    let codec = NsqCodec;
    let mut buf = BytesMut::new();
    let r = codec.encode(NsqValue::Heartbeat, &mut buf);
    match r {
        Err(nsqueue::error::Error::Unexpected(msg, Some(v))) => {
            assert_eq!(msg, "cannot encode a decode-only value");
            assert_eq!(v, NsqValue::Heartbeat);
        }
        other => panic!("expected an Unexpected error, got {:?}", other),
    }
    // the buffer is left untouched
    assert_eq!(0, buf.len());
}

#[test]
fn encode_appends_after_existing_bytes() {
    let codec = NsqCodec;
    let mut buf = BytesMut::from(&b"PREFIX"[..]);
    assert!(codec.encode(NsqValue::Command("NOP".to_owned()), &mut buf).is_ok());
    assert_eq!(&b"PREFIXNOP\n"[..], &buf[..]);
}

#[test]
fn write_msg_appends_length_prefixed_payload() {
    let mut buf = BytesMut::new();
    nsqueue::codec::write_msg(&mut buf, "hello world".to_owned());
    assert_eq!(&[0, 0, 0, 11, 104, 101, 108, 108, 111, 32, 119, 111, 114, 108, 100][..], &buf[..]);
}

#[test]
fn write_mmsg_appends_whole_command() {
    let mut buf = BytesMut::new();
    let msgs = vec!["hello".to_owned(), "world".to_owned()];
    nsqueue::codec::write_mmsg(&mut buf, "MPUB test".to_owned(), msgs);
    assert_eq!(
        &[
            77, 80, 85, 66, 32, 116, 101, 115, 116, 10, 0, 0, 0, 2, 0, 0, 0, 5, 104, 101, 108,
            108, 111, 0, 0, 0, 5, 119, 111, 114, 108, 100
        ][..],
        &buf[..]
    );
}
