use auth_proxy::error::Error;
use auth_proxy::record::Api;

fn svc_bytes() -> Vec<u8> {
    let mut bytes = vec![10u8, 0];
    bytes.extend_from_slice(&[1, 0, 0, 0, 0, 0, 0, 0]);
    bytes.extend_from_slice(&[6, 0, 0, 0, 0, 0, 0, 0]);
    bytes.extend_from_slice(b"/admin");
    bytes.extend_from_slice(&[1, 0, 0, 0, 0, 0, 0, 0]);
    bytes.extend_from_slice(&[7, 0, 0, 0, 0, 0, 0, 0]);
    bytes.extend_from_slice(b"/health");
    bytes
}

fn svc() -> Api {
    Api::new(10, vec![String::from("/admin")], vec![String::from("/health")])
}

#[test]
fn default_record_has_no_limit_and_no_paths() {
    let api = Api::default();
    assert_eq!(api.client_limit(), 0);
    assert!(api.protected_paths().is_empty());
    assert!(api.unprotected_paths().is_empty());
    assert_eq!(api, Api::new(0, vec![], vec![]));
}

#[test]
fn new_keeps_order_and_duplicates() {
    let paths = vec![String::from("/b"), String::from("/a"), String::from("/b")];
    let api = Api::new(65535, paths.clone(), vec![String::new()]);
    assert_eq!(api.client_limit(), 65535);
    assert_eq!(api.protected_paths(), &paths);
    assert_eq!(api.unprotected_paths(), &vec![String::new()]);
}

#[test]
fn encode_lays_the_fields_out_in_order() {
    assert_eq!(svc().encode().unwrap(), svc_bytes());
}

#[test]
fn encode_of_the_default_record() {
    assert_eq!(Api::default().encode().unwrap(), vec![0u8; 18]);
}

#[test]
fn encode_writes_the_limit_low_byte_first() {
    let bytes = Api::new(0x1234, vec![], vec![]).encode().unwrap();
    assert_eq!(&bytes[..2], &[0x34, 0x12]);
    assert_eq!(bytes.len(), 18);
}

#[test]
fn encode_writes_strings_as_utf8() {
    let bytes = Api::new(0, vec![String::from("\u{e7}")], vec![]).encode().unwrap();
    let mut expected = vec![0u8, 0];
    expected.extend_from_slice(&[1, 0, 0, 0, 0, 0, 0, 0]);
    expected.extend_from_slice(&[2, 0, 0, 0, 0, 0, 0, 0]);
    expected.extend_from_slice(&[0xc3, 0xa7]);
    expected.extend_from_slice(&[0, 0, 0, 0, 0, 0, 0, 0]);
    assert_eq!(bytes, expected);
}

#[test]
fn decode_reads_the_fields_back() {
    let api = Api::decode(&svc_bytes()).unwrap();
    assert_eq!(api, svc());
    assert_eq!(api.client_limit(), 10);
    assert_eq!(api.protected_paths(), &vec![String::from("/admin")]);
    assert_eq!(api.unprotected_paths(), &vec![String::from("/health")]);
}

#[test]
fn decode_is_the_inverse_of_encode() {
    let records = vec![
        Api::default(),
        svc(),
        Api::new(1, vec![String::from("/a"), String::from("/a")], vec![]),
        Api::new(65535, vec![], vec![String::new(), String::from("/\u{1f600}")]),
    ];
    for record in records {
        let bytes = record.encode().unwrap();
        assert_eq!(Api::decode(&bytes).unwrap(), record);
    }
}

#[test]
fn decode_rejects_truncated_bytes() {
    let bytes = svc_bytes();
    for len in 0..bytes.len() {
        assert!(matches!(Api::decode(&bytes[..len]), Err(Error::Bincode(_))));
    }
}

#[test]
fn decode_rejects_invalid_utf8() {
    let mut bytes = svc_bytes();
    bytes[18] = 0xff;
    assert!(matches!(Api::decode(&bytes), Err(Error::Bincode(_))));
}

#[test]
fn decode_rejects_a_length_beyond_the_bytes() {
    let mut bytes = vec![0u8; 18];
    bytes[2] = 1;
    assert!(matches!(Api::decode(&bytes), Err(Error::Bincode(_))));
}

#[test]
fn records_are_equal_by_their_fields() {
    let paths = || vec![String::from("/a"), String::from("/b")];
    let record = Api::new(7, paths(), paths());
    assert_eq!(record, Api::new(7, paths(), paths()));
    assert_ne!(record, Api::new(8, paths(), paths()));
    assert_ne!(record, Api::new(7, vec![String::from("/b"), String::from("/a")], paths()));
    assert_ne!(record, Api::new(7, paths(), vec![String::from("/a")]));
    assert_ne!(record, Api::new(7, vec![String::from("/a"), String::from("/c")], paths()));
    assert_ne!(record, Api::new(7, paths(), vec![]));
    assert_ne!(
        Api::new(0, vec![String::from("/a")], vec![]),
        Api::new(0, vec![], vec![String::from("/a")])
    );
}

#[test]
fn decode_lets_bytes_after_the_record_pass() {
    let mut bytes = svc_bytes();
    bytes.extend_from_slice(&[1, 2, 3]);
    assert_eq!(Api::decode(&bytes).unwrap(), svc());
}

#[test]
fn decode_reads_what_the_bytes_begin_with() {
    let record = Api::new(258, vec![String::from("/a")], vec![String::new(), String::from("/b")]);
    let bytes = record.encode().unwrap();
    let read = Api::decode(&bytes).unwrap();
    assert_eq!(read.encode().unwrap(), bytes);
    assert_eq!(bytes.len(), 2 + 8 + (8 + 2) + 8 + 8 + (8 + 2));
}
