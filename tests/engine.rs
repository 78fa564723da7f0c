use plugin_host::codec::{encode_plugin, encode_verdict, Plugin};
use plugin_host::engine::{host_memory, input_len, metadata, response_verdict, REGION_CAPACITY};
use plugin_host::error::Error;

#[test]
fn input_longer_than_region_is_refused() {
    assert!(matches!(input_len(REGION_CAPACITY + 1), Err(Error::InvalidOffset)));
    assert!(matches!(input_len(70000), Err(Error::InvalidOffset)));
    assert_eq!(input_len(REGION_CAPACITY).unwrap(), 65535);
    assert_eq!(input_len(14).unwrap(), 14);
    assert_eq!(input_len(0).unwrap(), 0);
}

#[test]
fn empty_response_frame_is_no_verdict() {
    assert_eq!(response_verdict(Ok(None)).unwrap(), None);
}

#[test]
fn response_payload_is_decoded() {
    let p = encode_verdict(&Some("FOUND".to_string()));
    assert_eq!(response_verdict(Ok(Some(p))).unwrap(), Some("FOUND".to_string()));
    let none = plugin_host::codec::encode_verdict(&None);
    assert!(none.is_empty());
    assert!(matches!(response_verdict(Ok(Some(vec![9]))), Err(Error::Bincode(_))));
    assert!(matches!(response_verdict(Err(Error::InvalidOffset)), Err(Error::InvalidOffset)));
}

#[test]
fn metadata_needs_a_payload() {
    assert!(matches!(metadata(Ok(None)), Err(Error::NullPtr)));
    assert!(matches!(metadata(Err(Error::InvalidOffset)), Err(Error::InvalidOffset)));
    let b = encode_plugin(&Plugin { address: 7, name: "Plugin".to_string() });
    let p = metadata(Ok(Some(b))).unwrap();
    assert_eq!(p.address, 7);
    assert_eq!(p.name, "Plugin");
}

#[test]
fn accessor_points_at_mailbox() {
    assert_eq!(host_memory(), 1);
}
