use nsqueue::config::Config;
use nsqueue::error;
use nsqueue::error::Error;
use nsqueue::NsqValue;

#[test]
fn config_new_has_stock_values() {
    let c = Config::new();
    assert_eq!(None, c.client_id);
    assert_eq!(None, c.short_id);
    assert_eq!(None, c.long_id);
    assert_eq!(None, c.hostname);
    assert_eq!("nsqueue", c.user_agent);
    assert!(!c.deflate);
    assert_eq!(6, c.deflate_level);
    assert!(!c.snappy);
    assert!(c.feature_negotiation);
    assert_eq!(30000, c.heartbeat_interval);
    assert_eq!(0, c.message_timeout);
    assert_eq!(16384, c.output_buffer_size);
    assert_eq!(250, c.output_buffer_timeout);
    assert_eq!(0, c.sample_rate);
    assert!(!c.tls_v1);
}

#[test]
fn config_default_matches_new() {
    assert_eq!(Config::new(), Config::default());
}

#[test]
fn config_builder_methods_set_one_field_each() {
    let c = Config::new()
        .client_id("client".to_owned())
        .hostname("host".to_owned())
        .user_agent("agent".to_owned())
        .snappy(true);
    assert_eq!(Some("client".to_owned()), c.client_id);
    assert_eq!(Some("host".to_owned()), c.hostname);
    assert_eq!("agent", c.user_agent);
    assert!(c.snappy);
    // the rest keeps the stock values
    assert_eq!(None, c.short_id);
    assert_eq!(30000, c.heartbeat_interval);
}

#[test]
fn internal_builds_an_unexpected_error() {
    let e = error::internal("boom".to_owned());
    assert_eq!(Error::Unexpected("boom".to_owned(), None), e);
}

#[test]
fn value_carries_the_offending_value() {
    let e = error::value("bad value".to_owned(), NsqValue::Heartbeat);
    assert_eq!(
        Error::Unexpected("bad value".to_owned(), Some(NsqValue::Heartbeat)),
        e
    );
}

#[test]
fn error_message_texts() {
    assert_eq!("invalid UTF-8 data", Error::InvalidEncoding.message());
    assert_eq!("unknown frame type", Error::UnknownFrameType(9).message());
    assert_eq!("malformed frame", Error::MalformedFrame.message());
    assert_eq!(
        "E_INVALID",
        Error::RemoteError("E_INVALID".to_owned()).message()
    );
    assert_eq!(
        "broken pipe",
        Error::TransportIo("broken pipe".to_owned()).message()
    );
    assert_eq!(
        "boom",
        Error::Unexpected("boom".to_owned(), None).message()
    );
}
