use vendor_ingest::fields::CanonicalField;
use vendor_ingest::mapping::MappingStore;

const ALL_FIELDS: [CanonicalField; 6] = [
    CanonicalField::FileKey,
    CanonicalField::Catalog,
    CanonicalField::Brand,
    CanonicalField::Description,
    CanonicalField::Quantity,
    CanonicalField::Ecommerce,
];

#[test]
fn fresh_store_is_all_unmapped() {
    let store = MappingStore::new();
    let snap = store.snapshot();
    for field in ALL_FIELDS {
        assert_eq!(snap.column_for(field).as_str(), "");
    }
}

#[test]
fn snapshot_reflects_the_most_recent_set() {
    let mut store = MappingStore::new();
    store.set(CanonicalField::FileKey, "id".to_string());
    store.set(CanonicalField::Quantity, "qty".to_string());
    store.set(CanonicalField::FileKey, "sku".to_string());
    let snap = store.snapshot();
    assert_eq!(snap.column_for(CanonicalField::FileKey).as_str(), "sku");
    assert_eq!(snap.column_for(CanonicalField::Quantity).as_str(), "qty");
    assert_eq!(snap.column_for(CanonicalField::Brand).as_str(), "");
    assert_eq!(snap.column_for(CanonicalField::Catalog).as_str(), "");
    assert_eq!(snap.column_for(CanonicalField::Description).as_str(), "");
    assert_eq!(snap.column_for(CanonicalField::Ecommerce).as_str(), "");
}

#[test]
fn set_does_not_check_membership_in_any_header() {
    let mut store = MappingStore::new();
    store.set(CanonicalField::Brand, "no such column".to_string());
    assert_eq!(store.snapshot().column_for(CanonicalField::Brand).as_str(), "no such column");
}

#[test]
fn reset_returns_every_field_to_unmapped() {
    let mut store = MappingStore::new();
    for field in ALL_FIELDS {
        store.set(field, "something".to_string());
    }
    store.reset();
    let snap = store.snapshot();
    for field in ALL_FIELDS {
        assert_eq!(snap.column_for(field).as_str(), "");
    }
}

#[test]
fn snapshot_is_detached_from_later_sets() {
    let mut store = MappingStore::new();
    store.set(CanonicalField::FileKey, "id".to_string());
    let snap = store.snapshot();
    store.set(CanonicalField::FileKey, "other".to_string());
    assert_eq!(snap.column_for(CanonicalField::FileKey).as_str(), "id");
}
