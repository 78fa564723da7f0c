use plugin_host::codec::{decode_plugin, decode_verdict, encode_plugin, encode_verdict, Plugin};
use plugin_host::error::Error;

#[test]
fn absent_verdict_encodes_empty() {
    assert_eq!(encode_verdict(&None), Vec::<u8>::new());
    assert_eq!(decode_verdict(&[]).unwrap(), None);
}

#[test]
fn present_verdict_bytes() {
    let b = encode_verdict(&Some("FOUND".to_string()));
    assert_eq!(b, vec![1, 5, 0, 0, 0, 0, 0, 0, 0, b'F', b'O', b'U', b'N', b'D']);
}

#[test]
fn verdict_round_trip() {
    for v in [Some("FOUND".to_string()), Some(String::new()), Some("é ü".to_string())] {
        let b = encode_verdict(&v);
        assert!(!b.is_empty());
        assert_eq!(decode_verdict(&b).unwrap(), v);
    }
}

#[test]
fn malformed_verdict_is_an_error() {
    assert!(matches!(decode_verdict(&[7]), Err(Error::Bincode(_))));
}

#[test]
fn plugin_round_trip() {
    let p = Plugin { address: 0x01020304, name: "Plugin".to_string() };
    let b = encode_plugin(&p);
    assert_eq!(&b[..4], &[4, 3, 2, 1]);
    let q = decode_plugin(&b).unwrap();
    assert_eq!(q.address, p.address);
    assert_eq!(q.name, p.name);
}

#[test]
fn custom_error_keeps_message() {
    assert!(matches!(Error::custom("boom".to_string()), Error::Custom(s) if s == "boom"));
}

#[test]
fn plugin_bytes_are_exact() {
    let b = encode_plugin(&Plugin { address: 2, name: "ab".to_string() });
    assert_eq!(b, vec![2, 0, 0, 0, 2, 0, 0, 0, 0, 0, 0, 0, b'a', b'b']);
}

#[test]
fn call_error_names_module_and_entry() {
    let e = Error::in_call(3, &"Plugin".to_string(), "run", Error::InvalidOffset);
    match e {
        Error::Call { index, module, entry, cause } => {
            assert_eq!(index, 3);
            assert_eq!(module, "Plugin");
            assert_eq!(entry, "run");
            assert!(matches!(*cause, Error::InvalidOffset));
        }
        _ => panic!("expected a call error"),
    }
}
