use allocation_engine::oracle::OracleContract;

#[test]
fn test_set_get_cpi() {
    let mut oracle = OracleContract::new();

    let country = String::from("USA");
    oracle.set_cpi(country.clone(), 250);

    assert_eq!(oracle.get_cpi(&country), 250);
}

#[test]
fn test_set_get_fx() {
    let mut oracle = OracleContract::new();

    let pair = String::from("USDNGN");
    oracle.set_fx(pair.clone(), 1000);

    assert_eq!(oracle.get_fx(&pair), 1000);
}

#[test]
fn test_set_get_asset_price() {
    let mut oracle = OracleContract::new();

    let asset = String::from("GOLD");
    oracle.set_asset_price(asset.clone(), 2000);

    assert_eq!(oracle.get_asset_price(&asset), 2000);
}

#[test]
fn unset_keys_read_as_zero() {
    let oracle = OracleContract::new();
    assert_eq!(oracle.get_cpi(&String::from("ZWE")), 0);
    assert_eq!(oracle.get_fx(&String::from("EURJPY")), 0);
    assert_eq!(oracle.get_asset_price(&String::from("BONDS")), 0);
}

#[test]
fn setting_a_key_overwrites_its_old_value() {
    let mut oracle = OracleContract::new();
    oracle.set_cpi(String::from("USA"), 100);
    oracle.set_cpi(String::from("USA"), 200);
    assert_eq!(oracle.get_cpi(&String::from("USA")), 200);
}

#[test]
fn feeds_are_independent() {
    let mut oracle = OracleContract::new();
    oracle.set_cpi(String::from("GOLD"), 1);
    oracle.set_fx(String::from("GOLD"), 2);
    oracle.set_asset_price(String::from("GOLD"), 3);
    assert_eq!(oracle.get_cpi(&String::from("GOLD")), 1);
    assert_eq!(oracle.get_fx(&String::from("GOLD")), 2);
    assert_eq!(oracle.get_asset_price(&String::from("GOLD")), 3);
}

#[test]
fn set_multi_replaces_the_whole_feed() {
    let mut oracle = OracleContract::new();
    oracle.set_cpi(String::from("USA"), 250);

    oracle.set_multi_cpi(vec![(String::from("KEN"), 300), (String::from("NGA"), 400)]);
    assert_eq!(oracle.get_cpi(&String::from("KEN")), 300);
    assert_eq!(oracle.get_cpi(&String::from("NGA")), 400);
    // The earlier entry is gone with the replaced feed.
    assert_eq!(oracle.get_cpi(&String::from("USA")), 0);

    oracle.set_multi_fx(vec![(String::from("USDNGN"), 1500)]);
    assert_eq!(oracle.get_fx(&String::from("USDNGN")), 1500);

    oracle.set_multi_asset_price(vec![(String::from("GOLD"), 2100)]);
    assert_eq!(oracle.get_asset_price(&String::from("GOLD")), 2100);
}
