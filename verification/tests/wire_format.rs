use vendor_ingest::errors::MissingFileError;
use vendor_ingest::fields::CanonicalField;
use vendor_ingest::mapping::MappingStore;
use vendor_ingest::payload::{build, FileBuffer, VendorIdentity};
use vendor_ingest::wire::encode_payload;

fn identity(name: &str, password: &str) -> VendorIdentity {
    VendorIdentity {
        vendor_name: name.to_string(),
        password: password.to_string(),
        vendor_key: None,
    }
}

fn encode_with_file(id: VendorIdentity, store: &MappingStore, bytes: &[u8]) -> String {
    let file = FileBuffer { name: "data.csv".to_string(), bytes: bytes.to_vec() };
    let payload = build(&id, store.snapshot(), Some(&file)).unwrap();
    String::from_utf8(encode_payload(&payload)).unwrap()
}

#[test]
fn build_without_a_file_fails_with_missing_file() {
    let store = MappingStore::new();
    let r = build(&identity("Acme", "pw"), store.snapshot(), None);
    assert_eq!(r.err(), Some(MissingFileError));
}

#[test]
fn build_with_a_file_keeps_the_bytes_intact() {
    let store = MappingStore::new();
    let bytes: Vec<u8> = (0u8..=255).collect();
    let file = FileBuffer { name: "raw.bin".to_string(), bytes: bytes.clone() };
    let payload = build(&identity("Acme", "pw"), store.snapshot(), Some(&file)).unwrap();
    assert_eq!(payload.file_bytes, bytes);
    assert_eq!(payload.vendor_name, "Acme");
    assert_eq!(payload.password, "pw");
}

#[test]
fn wire_message_has_the_documented_shape() {
    let mut store = MappingStore::new();
    store.set(CanonicalField::FileKey, "id".to_string());
    let wire = encode_with_file(identity("Acme", "p@ss"), &store, b"id,name,qty\n1,widget,5\n");
    assert_eq!(
        wire,
        "{\"vendor_name\":\"Acme\",\"password\":\"p@ss\",\"vendor_key\":null,\
         \"file_mappings\":{\"File Key\":\"id\",\"Catalog\":\"\",\"Brand\":\"\",\
         \"Description\":\"\",\"Quantity\":\"\",\"Ecommerce\":\"\"},\
         \"file_bytes\":\"aWQsbmFtZSxxdHkKMSx3aWRnZXQsNQo=\"}"
    );
}

#[test]
fn vendor_key_is_written_when_present() {
    let store = MappingStore::new();
    let id = VendorIdentity {
        vendor_name: "A".to_string(),
        password: "b".to_string(),
        vendor_key: Some("k-1".to_string()),
    };
    let wire = encode_with_file(id, &store, b"abc");
    assert!(wire.contains("\"vendor_key\":\"k-1\""));
    assert!(wire.contains("\"file_bytes\":\"YWJj\""));
}

#[test]
fn base64_padding_follows_the_remainder() {
    let store = MappingStore::new();
    let one = encode_with_file(identity("v", "p"), &store, b"a");
    assert!(one.contains("\"file_bytes\":\"YQ==\""));
    let two = encode_with_file(identity("v", "p"), &store, b"ab");
    assert!(two.contains("\"file_bytes\":\"YWI=\""));
    let empty = encode_with_file(identity("v", "p"), &store, b"");
    assert!(empty.contains("\"file_bytes\":\"\""));
}

#[test]
fn large_file_bytes_encode_to_the_expected_length() {
    let store = MappingStore::new();
    let bytes: Vec<u8> = (0..10_000u32).map(|i| (i % 251) as u8).collect();
    let wire = encode_with_file(identity("v", "p"), &store, &bytes);
    let marker = "\"file_bytes\":\"";
    let start = wire.find(marker).unwrap() + marker.len();
    let end = wire[start..].find('"').unwrap();
    // 10000 bytes form 3333 full groups and one 1-byte remainder.
    assert_eq!(end, 4 * 3334);
}

#[test]
fn strings_are_escaped_for_json() {
    let store = MappingStore::new();
    let name = "A\"B\\C\n\u{e9}\u{20ac}\u{1F600}";
    let wire = encode_with_file(identity(name, "p"), &store, b"x");
    assert!(wire.contains("\"vendor_name\":\"A\\\"B\\\\C\\u000a\\u00e9\\u20ac\\ud83d\\ude00\""));
    assert!(wire.is_ascii());
}
