use bdo_market_cache::record::{ItemRecord, Region};
use bdo_market_cache::store::Store;

fn record(item_id: u64, base_price: u64, name: &str) -> ItemRecord {
    ItemRecord {
        item_id,
        base_price,
        total_trade_count: 3,
        key_type: 0,
        sub_key: 0,
        count: 1,
        name: name.to_owned(),
        grade: 2,
        main_category: 20,
        sub_category: 1,
        enhancement_level: 0,
        godr_ayed: false,
    }
}

#[test]
fn absent_key_is_none_not_error() {
    let store = Store::new();
    assert!(store.get(5, Region::Eu).is_none());
}

#[test]
fn upsert_then_get_returns_record_and_timestamp() {
    let mut store = Store::new();
    store.upsert(record(5, 100, "Ogre Ring"), Region::Eu, 1234).unwrap();
    let (found, ts) = store.get(5, Region::Eu).unwrap();
    assert_eq!(found, record(5, 100, "Ogre Ring"));
    assert_eq!(ts, 1234);
}

#[test]
fn upsert_replaces_and_resets_timestamp() {
    let mut store = Store::new();
    store.upsert(record(5, 100, "Ogre Ring"), Region::Eu, 1000).unwrap();
    store.upsert(record(5, 150, "Ogre Ring"), Region::Eu, 2000).unwrap();
    let (found, ts) = store.get(5, Region::Eu).unwrap();
    assert_eq!(found.base_price, 150);
    assert_eq!(ts, 2000);
}

#[test]
fn upsert_twice_same_record_keeps_latest_timestamp() {
    let mut store = Store::new();
    let mut once = Store::new();
    store.upsert(record(5, 100, "Ogre Ring"), Region::Eu, 1000).unwrap();
    store.upsert(record(5, 100, "Ogre Ring"), Region::Eu, 2000).unwrap();
    once.upsert(record(5, 100, "Ogre Ring"), Region::Eu, 2000).unwrap();
    assert_eq!(store.get(5, Region::Eu), once.get(5, Region::Eu));
}

#[test]
fn keys_are_independent() {
    let mut store = Store::new();
    store.upsert(record(5, 100, "Ogre Ring"), Region::Eu, 1000).unwrap();
    store.upsert(record(6, 200, "Tungrad Ring"), Region::Eu, 2000).unwrap();
    store.upsert(record(5, 300, "Ogre Ring"), Region::Na, 3000).unwrap();
    let (eu5, ts5) = store.get(5, Region::Eu).unwrap();
    assert_eq!(eu5.base_price, 100);
    assert_eq!(ts5, 1000);
    let (eu6, ts6) = store.get(6, Region::Eu).unwrap();
    assert_eq!(eu6.base_price, 200);
    assert_eq!(ts6, 2000);
    let (na5, _) = store.get(5, Region::Na).unwrap();
    assert_eq!(na5.base_price, 300);
    assert!(store.get(6, Region::Na).is_none());
}

#[test]
fn region_encoding_round_trips() {
    let regions = [
        Region::Eu,
        Region::Na,
        Region::Sea,
        Region::Kr,
        Region::Ru,
        Region::Jp,
        Region::ConsoleEu,
        Region::ConsoleNa,
    ];
    for (expected_index, region) in regions.iter().enumerate() {
        let index = region.to_index();
        assert_eq!(index, expected_index as u64);
        assert_eq!(Region::from_index(index), Some(*region));
    }
    assert_eq!(Region::from_index(8), None);
    assert_eq!(Region::from_index(u64::MAX), None);
}

#[test]
fn record_clone_is_equal() {
    let original = record(7, 42, "Kzarka Longsword");
    let copied = original.clone();
    assert_eq!(original, copied);
}
