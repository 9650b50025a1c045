use bytes::BytesMut;
use nsqueue::commands;
use nsqueue::error::Error;
use nsqueue::NsqCodec;
use nsqueue::NsqValue;

fn wire_bytes(v: NsqValue) -> BytesMut {
    let codec = NsqCodec;
    let mut buf = BytesMut::new();
    assert!(codec.encode(v, &mut buf).is_ok());
    buf
}

#[test]
fn nop_builds_exact_wire_form() {
    let buf = wire_bytes(commands::nop());
    assert_eq!(&b"NOP\n"[..], &buf[..]);
}

#[test]
fn cls_builds_exact_wire_form() {
    let buf = wire_bytes(commands::cls());
    assert_eq!(&b"CLS\n"[..], &buf[..]);
}

#[test]
fn sub_builds_exact_wire_form() {
    let buf = wire_bytes(commands::sub("topic", "channel"));
    assert_eq!(&b"SUB topic channel\n"[..], &buf[..]);
}

#[test]
fn rdy_renders_its_count_in_decimal() {
    let buf = wire_bytes(commands::rdy(1));
    assert_eq!(&b"RDY 1\n"[..], &buf[..]);
    let buf = wire_bytes(commands::rdy(2500));
    assert_eq!(&b"RDY 2500\n"[..], &buf[..]);
    let buf = wire_bytes(commands::rdy(0));
    assert_eq!(&b"RDY 0\n"[..], &buf[..]);
}

#[test]
fn version_builds_exact_wire_form() {
    let buf = wire_bytes(commands::version(2));
    assert_eq!(&b"  V2\n"[..], &buf[..]);
}

#[test]
fn fin_accepts_a_16_byte_id() {
    let v = commands::fin("0527a8aa06ab00d3").unwrap();
    let buf = wire_bytes(v);
    assert_eq!(&b"FIN 0527a8aa06ab00d3\n"[..], &buf[..]);
}

#[test]
fn fin_rejects_a_wrong_size_id() {
    match commands::fin("short") {
        Err(Error::Unexpected(msg, None)) => {
            assert_eq!(msg, "message id must be exactly 16 bytes");
        }
        other => panic!("expected a construction error, got {:?}", other),
    }
}

#[test]
fn req_accepts_a_16_byte_id() {
    let v = commands::req("0527a8aa06ab00d3", "30000").unwrap();
    let buf = wire_bytes(v);
    assert_eq!(&b"REQ 0527a8aa06ab00d3 30000\n"[..], &buf[..]);
}

#[test]
fn req_rejects_a_wrong_size_id() {
    assert!(commands::req("0527a8aa06ab00d3ff", "30000").is_err());
}

#[test]
fn touch_accepts_a_16_byte_id() {
    let v = commands::touch("0527a8aa06ab00d3").unwrap();
    let buf = wire_bytes(v);
    assert_eq!(&b"TOUCH 0527a8aa06ab00d3\n"[..], &buf[..]);
}

#[test]
fn touch_rejects_a_wrong_size_id() {
    assert!(commands::touch("").is_err());
}

#[test]
fn publish_builds_exact_wire_form() {
    let buf = wire_bytes(commands::publish("test", "hello world"));
    assert_eq!(
        &[
            80, 85, 66, 32, 116, 101, 115, 116, 10, 0, 0, 0, 11, 104, 101, 108, 108, 111, 32, 119,
            111, 114, 108, 100
        ][..],
        &buf[..]
    );
}

#[test]
fn publish_length_prefix_counts_bytes_not_characters() {
    let buf = wire_bytes(commands::publish("test", "©¥£"));
    assert_eq!(
        &[80, 85, 66, 32, 116, 101, 115, 116, 10, 0, 0, 0, 6, 194, 169, 194, 165, 194, 163][..],
        &buf[..]
    );
}

#[test]
fn mpub_builds_exact_wire_form() {
    let msgs = vec!["hello".to_owned(), "world".to_owned()];
    let buf = wire_bytes(commands::mpub("test", msgs));
    assert_eq!(
        &[
            77, 80, 85, 66, 32, 116, 101, 115, 116, 10, 0, 0, 0, 2, 0, 0, 0, 5, 104, 101, 108,
            108, 111, 0, 0, 0, 5, 119, 111, 114, 108, 100
        ][..],
        &buf[..]
    );
}

#[test]
fn dpub_builds_exact_wire_form() {
    let buf = wire_bytes(commands::dpub("test", "5000", "hi"));
    assert_eq!(&b"DPUB test 5000\n\x00\x00\x00\x02hi"[..], &buf[..]);
}

#[test]
fn identify_carries_the_document_as_payload() {
    let buf = wire_bytes(commands::identify("{}".to_owned()));
    assert_eq!(
        &[73, 68, 69, 78, 84, 73, 70, 89, 10, 0, 0, 0, 2, 123, 125][..],
        &buf[..]
    );
}
