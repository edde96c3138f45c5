use ethers::types::H128;
use hyperliquid_rust_sdk::{AssetMeta, PerpDexMeta, SpotAssetMeta, SpotMeta, TokenInfo};
use std::collections::HashMap;

fn perp(name: &str, sz_decimals: u32) -> AssetMeta {
    AssetMeta {
        name: name.to_string(),
        sz_decimals,
        margin_table_id: 0,
        max_leverage: 10,
        only_isolated: None,
        is_delisted: None,
        margin_mode: None,
    }
}

#[test]
fn test_perp_dex_meta_asset_id_calculation() {
    let perp_dex_meta = PerpDexMeta {
        universe: vec![
            AssetMeta {
                name: "test:ABC".to_string(),
                sz_decimals: 2,
                margin_table_id: 0,
                max_leverage: 10,
                only_isolated: None,
                is_delisted: None,
                margin_mode: None,
            },
            AssetMeta {
                name: "test:XYZ".to_string(),
                sz_decimals: 3,
                margin_table_id: 0,
                max_leverage: 10,
                only_isolated: None,
                is_delisted: None,
                margin_mode: None,
            },
        ],
    };

    let perp_dex_index = 1;
    let asset_map = perp_dex_meta.add_perp_to_asset_map(perp_dex_index, HashMap::new());

    assert_eq!(asset_map.get("test:ABC"), Some(&110000));
    assert_eq!(asset_map.get("test:XYZ"), Some(&110001));
}

#[test]
fn test_perp_dex_meta_multiple_indices() {
    let perp_dex_meta = PerpDexMeta {
        universe: vec![AssetMeta {
            name: "xyz:XYZ100".to_string(),
            sz_decimals: 2,
            margin_table_id: 0,
            max_leverage: 10,
            only_isolated: None,
            is_delisted: None,
            margin_mode: None,
        }],
    };

    let asset_map = perp_dex_meta.add_perp_to_asset_map(0, HashMap::new());
    assert_eq!(asset_map.get("xyz:XYZ100"), Some(&100000));

    let asset_map = perp_dex_meta.add_perp_to_asset_map(2, HashMap::new());
    assert_eq!(asset_map.get("xyz:XYZ100"), Some(&120000));
}

#[test]
fn test_perp_dex_meta_extend_existing_map() {
    let perp_dex_meta = PerpDexMeta {
        universe: vec![AssetMeta {
            name: "test:ABC".to_string(),
            sz_decimals: 2,
            margin_table_id: 0,
            max_leverage: 10,
            only_isolated: None,
            is_delisted: None,
            margin_mode: None,
        }],
    };

    let mut existing_map = HashMap::new();
    existing_map.insert("existing:COIN".to_string(), 99999);

    let asset_map = perp_dex_meta.add_perp_to_asset_map(1, existing_map);

    assert_eq!(asset_map.get("existing:COIN"), Some(&99999));
    assert_eq!(asset_map.get("test:ABC"), Some(&110000));
}

#[test]
fn perp_ids_follow_the_order_of_the_universe() {
    let meta = PerpDexMeta { universe: vec![perp("a:ONE", 1), perp("a:TWO", 2), perp("a:ONE", 3)] };
    let map = meta.add_perp_to_asset_map(3, HashMap::new());
    assert_eq!(map.len(), 2);
    assert_eq!(map.get("a:TWO"), Some(&130001));
    assert_eq!(map.get("a:ONE"), Some(&130002));
}

#[test]
fn empty_perp_universe_leaves_the_table_alone() {
    let meta = PerpDexMeta { universe: vec![] };
    let mut table = HashMap::new();
    table.insert("BTC".to_string(), 0u32);
    let out = meta.add_perp_to_asset_map(usize::MAX / 20000, table.clone());
    assert_eq!(out, table);
}

fn token(name: &str, index: usize) -> TokenInfo {
    TokenInfo {
        name: name.to_string(),
        sz_decimals: 2,
        wei_decimals: 8,
        index,
        token_id: H128::zero(),
        is_canonical: true,
    }
}

fn pair(name: &str, index: usize, tokens: [usize; 2]) -> SpotAssetMeta {
    SpotAssetMeta { tokens, name: name.to_string(), index, is_canonical: true }
}

#[test]
fn spot_pairs_are_recorded_under_both_names() {
    let meta = SpotMeta {
        universe: vec![pair("@1", 1, [1, 0]), pair("PURR/USDC", 0, [2, 0])],
        tokens: vec![token("USDC", 0), token("HYPE", 1), token("PURR", 2)],
    };
    let map = meta.add_pair_and_name_to_index_map(HashMap::new());
    assert_eq!(map.len(), 3);
    assert_eq!(map.get("HYPE/USDC"), Some(&10001));
    assert_eq!(map.get("@1"), Some(&10001));
    assert_eq!(map.get("PURR/USDC"), Some(&10000));
}

#[test]
fn spot_pair_with_an_unlisted_token_is_left_out() {
    let meta = SpotMeta {
        universe: vec![pair("@7", 7, [1, 9]), pair("@8", 8, [9, 0]), pair("@9", 9, [1, 0])],
        tokens: vec![token("USDC", 0), token("HYPE", 1)],
    };
    let mut table = HashMap::new();
    table.insert("BTC".to_string(), 3u32);
    let map = meta.add_pair_and_name_to_index_map(table);
    assert_eq!(map.len(), 3);
    assert_eq!(map.get("BTC"), Some(&3));
    assert_eq!(map.get("@7"), None);
    assert_eq!(map.get("@8"), None);
    assert_eq!(map.get("@9"), Some(&10009));
    assert_eq!(map.get("HYPE/USDC"), Some(&10009));
}

#[test]
fn later_token_listing_replaces_an_earlier_one() {
    let meta = SpotMeta {
        universe: vec![pair("@2", 2, [1, 0])],
        tokens: vec![token("USDC", 0), token("OLD", 1), token("NEW", 1)],
    };
    let map = meta.add_pair_and_name_to_index_map(HashMap::new());
    assert_eq!(map.get("NEW/USDC"), Some(&10002));
    assert_eq!(map.get("OLD/USDC"), None);
}

#[test]
fn catalogue_entries_are_cloned_field_by_field() {
    let mut id = H128::zero();
    id.0[15] = 9;
    let mut t = token("HYPE", 150);
    t.token_id = id;
    let copy = t.clone();
    assert_eq!(copy.token_id, id);
    assert_eq!(copy.name, "HYPE");
    assert_eq!(copy.index, 150);
    let tier = hyperliquid_rust_sdk::MarginTier {
        lower_bound: rust_decimal::Decimal::new(30000000, 1),
        max_leverage: 5,
    };
    let copy = tier.clone();
    assert_eq!(copy.lower_bound, rust_decimal::Decimal::new(3000000, 0));
    assert_eq!(copy.max_leverage, 5);
}
