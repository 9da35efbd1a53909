//! Exact rating values, the rating floor, configuration defaults, and the
//! warm item cache.

use biotonic_server::cache::{get_item, ItemCatalog, ItemDef};
use biotonic_server::config::{settings, Settings};
use biotonic_server::game::scoring::{apply_delta, elo_delta};

#[test]
fn elo_exact_values() {
    assert_eq!(elo_delta(1500, 1500, 1, 32), (16, -16));
    assert_eq!(elo_delta(1500, 1500, 2, 32), (-16, 16));
    assert_eq!(elo_delta(1400, 1600, 1, 32), (24, -24));
    assert_eq!(elo_delta(1600, 1400, 0, 32), (-8, 8));
}

#[test]
fn elo_zero_sum_across_outcomes() {
    for (r1, r2) in [(1000, 2000), (1234, 1233), (0, 3000), (1500, 1500)] {
        for winner in [0u8, 1, 2] {
            let (d1, d2) = elo_delta(r1, r2, winner, 32);
            assert_eq!(d1 + d2, 0, "deltas cancel for every outcome");
        }
    }
}

#[test]
fn rating_floor_is_zero() {
    assert_eq!(apply_delta(10, -32), 0);
    assert_eq!(apply_delta(10, -10), 0);
    assert_eq!(apply_delta(1500, 16), 1516);
    assert_eq!(apply_delta(1500, -16), 1484);
    assert_eq!(apply_delta(0, 24), 24);
}

#[test]
fn settings_fall_back_to_defaults() {
    assert_eq!(
        settings(None, None, None),
        Settings {
            max_turns: 5,
            presence_ttl: 600,
            disconnect_grace: 120,
        }
    );
    assert_eq!(
        settings(Some(9), Some(30), Some(45)),
        Settings {
            max_turns: 9,
            presence_ttl: 30,
            disconnect_grace: 45,
        }
    );
    assert_eq!(settings(Some(9), None, None).presence_ttl, 600);
}

#[test]
fn history_limit_defaults_to_fifty() {
    assert_eq!(biotonic_server::api::default_limit(), 50);
}

#[test]
fn warm_cache_returns_inserted_item() {
    let mut catalog = ItemCatalog::new();
    catalog.insert_item(ItemDef {
        id: 42,
        name: "test_item".to_string(),
        description: Some("test_desc".to_string()),
        base_price: 123,
    });
    let item = get_item(&catalog, 42).expect("get_item should return our test item");
    assert_eq!(item.id, 42);
    assert_eq!(item.name, "test_item");
    assert_eq!(item.description.as_deref(), Some("test_desc"));
    assert_eq!(item.base_price, 123);
}

#[test]
fn warm_cache_misses_unknown_id() {
    let catalog = ItemCatalog::new();
    assert!(
        get_item(&catalog, 9999).is_none(),
        "get_item should return None for missing id"
    );
}

#[test]
fn warming_twice_keeps_one_row_per_id() {
    let mut catalog = ItemCatalog::new();
    catalog.insert_item(ItemDef {
        id: 7,
        name: "before".to_string(),
        description: None,
        base_price: 1,
    });
    catalog.insert_item(ItemDef {
        id: 7,
        name: "after".to_string(),
        description: None,
        base_price: 2,
    });
    let item = get_item(&catalog, 7).expect("row exists");
    assert_eq!(item.name, "after");
    assert_eq!(item.base_price, 2);
}
