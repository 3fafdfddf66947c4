use kiteconnect::connect::client::KiteConnect;
use kiteconnect::connect::config::{CacheConfig, KiteConnectConfig, RetryConfig, DEFAULT_BASE_URL};
use kiteconnect::connect::endpoints::{HttpMethod, KiteEndpoint};
use kiteconnect::connect::request::ApiRequest;

fn pairs(v: &[(&str, &str)]) -> Vec<(String, String)> {
    v.iter().map(|(k, x)| (k.to_string(), x.to_string())).collect()
}

#[test]
fn mod_test_build_url() {
    let kiteconnect = KiteConnect::new("key", "token");
    let url = kiteconnect.build_url("/my-holdings", None);
    assert_eq!(url.as_str(), format!("{}/my-holdings", DEFAULT_BASE_URL).as_str());

    let params = pairs(&[("one", "1")]);
    let url = kiteconnect.build_url("/my-holdings", Some(params));
    assert_eq!(url.as_str(), format!("{}/my-holdings?one=1", DEFAULT_BASE_URL).as_str());
}

#[test]
fn mod_test_set_access_token() {
    let mut kiteconnect = KiteConnect::new("key", "token");
    assert_eq!(kiteconnect.access_token(), "token");
    kiteconnect.set_access_token("my_token");
    assert_eq!(kiteconnect.access_token(), "my_token");
}

#[test]
fn mod_test_login_url() {
    let kiteconnect = KiteConnect::new("key", "token");
    assert_eq!(kiteconnect.login_url(), "https://kite.trade/connect/login?api_key=key&v3");
}

#[test]
fn default_client_has_placeholders() {
    let k = KiteConnect::default();
    assert_eq!(k.api_key, "<API-KEY>");
    assert_eq!(k.access_token, "<ACCESS-TOKEN>");
    assert_eq!(k.root, "https://api.kite.trade");
    assert_eq!(k.timeout, 30);
    assert!(k.enable_rate_limiting);
}

#[test]
fn client_from_config_has_no_token() {
    let mut config = KiteConnectConfig::default();
    config.base_url = "http://127.0.0.1:1234".to_string();
    config.timeout = 5;
    let k = KiteConnect::new_with_config("key", config);
    assert_eq!(k.api_key, "key");
    assert_eq!(k.access_token, "");
    assert_eq!(k.root, "http://127.0.0.1:1234");
    assert_eq!(k.timeout, 5);
    let url = k.build_url("/user/profile", None);
    assert_eq!(url, "http://127.0.0.1:1234/user/profile");
}

#[test]
fn authorization_header_joins_key_and_token() {
    let k = KiteConnect::new("key", "token");
    assert_eq!(k.authorization_header(), "token key:token");
}

#[test]
fn checksum_is_lowercase_hex_sha256() {
    let k = KiteConnect::new("key", "token");
    assert_eq!(
        k.compute_checksum("abc"),
        "ba7816bf8f01cfea414140de5dae2223b00361a396177a9cb410ff61f20015ad"
    );
    assert_eq!(
        k.compute_checksum(""),
        "e3b0c44298fc1c149afbf4c8996fb92427ae41e4649b934ca495991b7852b855"
    );
    assert_eq!(k.compute_checksum("anything at all").len(), 64);
}

#[test]
fn try_build_url_refuses_bad_paths() {
    let k = KiteConnect::new("key", "token");
    assert_eq!(k.try_build_url("", None), None);
    assert_eq!(k.try_build_url("éx", None), None);
    assert_eq!(
        k.try_build_url("/quote", Some(pairs(&[("i", "NSE:INFY"), ("i", "NSE:TCS")]))),
        Some("https://api.kite.trade/quote?i=NSE%3AINFY&i=NSE%3ATCS".to_string())
    );
    let mut bad = KiteConnect::new("key", "token");
    bad.root = "not a url".to_string();
    assert_eq!(bad.try_build_url("/quote", None), None);
}

#[test]
fn generate_session_request_carries_the_checksum() {
    let k = KiteConnect::new("a", "");
    let r = k.generate_session_request("b", "c");
    assert_eq!(r.endpoint, KiteEndpoint::GenerateSession);
    assert_eq!(r.method(), HttpMethod::POST);
    assert_eq!(r.path(), "/session/token");
    assert_eq!(r.query, None);
    assert_eq!(
        r.form,
        Some(pairs(&[
            ("api_key", "a"),
            ("request_token", "b"),
            ("checksum", "ba7816bf8f01cfea414140de5dae2223b00361a396177a9cb410ff61f20015ad"),
        ]))
    );
}

#[test]
fn renew_access_token_request_uses_the_refresh_token() {
    let k = KiteConnect::new("a", "");
    let r = k.renew_access_token_request("b", "c");
    assert_eq!(r.endpoint, KiteEndpoint::RenewAccessToken);
    assert_eq!(r.path(), "/session/refresh_token");
    assert_eq!(
        r.form,
        Some(pairs(&[
            ("api_key", "a"),
            ("refresh_token", "b"),
            ("checksum", "ba7816bf8f01cfea414140de5dae2223b00361a396177a9cb410ff61f20015ad"),
        ]))
    );
    let inv = k.invalidate_refresh_token_request("b");
    assert_eq!(inv.method(), HttpMethod::DELETE);
    assert_eq!(inv.form, Some(pairs(&[("refresh_token", "b")])));
    let inv = k.invalidate_access_token_request("t");
    assert_eq!(inv.endpoint, KiteEndpoint::InvalidateSession);
    assert_eq!(inv.form, Some(pairs(&[("access_token", "t")])));
}

#[test]
fn connect_test_margins() {
    let k = KiteConnect::new("API_KEY", "ACCESS_TOKEN");
    assert_eq!(k.margins_request(None).path(), "/user/margins");
    assert_eq!(k.margins_request(Some("commodity")).path(), "/user/margins/commodity");
}

#[test]
fn connect_test_holdings() {
    let k = KiteConnect::new("API_KEY", "ACCESS_TOKEN");
    let r = k.holdings_request();
    assert_eq!(r.path(), "/portfolio/holdings");
    assert_eq!(r.method(), HttpMethod::GET);
}

#[test]
fn connect_test_positions() {
    let k = KiteConnect::new("API_KEY", "ACCESS_TOKEN");
    assert_eq!(k.positions_request().path(), "/portfolio/positions");
}

#[test]
fn connect_test_order_trades() {
    let k = KiteConnect::new("API_KEY", "ACCESS_TOKEN");
    let r = k.order_trades_request("171229000724687");
    assert_eq!(r.path(), "/orders/171229000724687/trades");
    assert_eq!(r.method(), HttpMethod::GET);
}

#[test]
fn connect_test_orders() {
    let k = KiteConnect::new("API_KEY", "ACCESS_TOKEN");
    assert_eq!(k.orders_request().path(), "/orders");
}

#[test]
fn connect_test_order_history() {
    let k = KiteConnect::new("API_KEY", "ACCESS_TOKEN");
    let r = k.order_history_request("171229000724687");
    assert_eq!(r.path(), "/orders");
    assert_eq!(r.query, Some(pairs(&[("order_id", "171229000724687")])));
    assert_eq!(
        k.request_url(&r),
        Some("https://api.kite.trade/orders?order_id=171229000724687".to_string())
    );
}

#[test]
fn connect_test_trades() {
    let k = KiteConnect::new("API_KEY", "ACCESS_TOKEN");
    assert_eq!(k.trades_request().path(), "/trades");
}

#[test]
fn connect_test_mf_orders() {
    let k = KiteConnect::new("API_KEY", "ACCESS_TOKEN");
    assert_eq!(k.mf_orders_request(None).path(), "/mf/orders");
    assert_eq!(k.mf_orders_request(Some("171229000724687")).path(), "/mf/orders/171229000724687");
}

#[test]
fn connect_test_trigger_range() {
    let k = KiteConnect::new("API_KEY", "ACCESS_TOKEN");
    let r = k.trigger_range_request(
        "BUY",
        &vec!["NSE:INFY".to_string(), "NSE:RELIANCE".to_string()],
    );
    assert_eq!(r.path(), "/instruments/trigger_range");
    assert_eq!(
        r.query,
        Some(pairs(&[
            ("transaction_type", "BUY"),
            ("instruments", "NSE:INFY"),
            ("instruments", "NSE:RELIANCE"),
        ]))
    );
}

#[test]
fn connect_test_instruments() {
    let k = KiteConnect::new("API_KEY", "ACCESS_TOKEN");
    assert_eq!(k.instruments_request(None).path(), "/instruments");
    assert_eq!(k.instruments_request(Some("NSE")).path(), "/instruments/NSE");
}

#[test]
fn connect_test_mf_instruments() {
    let k = KiteConnect::new("API_KEY", "ACCESS_TOKEN");
    assert_eq!(k.mf_instruments_request().path(), "/mf/instruments");
}

#[test]
fn place_order_sends_only_given_options() {
    let k = KiteConnect::new("key", "token");
    let r = k.place_order_request(
        "regular", "NSE", "INFY", "BUY", "1", Some("CNC"), Some("LIMIT"), Some("1500"), None,
        None, None, None, None, None, Some("tag1"),
    );
    assert_eq!(r.endpoint, KiteEndpoint::PlaceOrder);
    assert_eq!(r.path(), "/orders/regular");
    assert_eq!(
        r.form,
        Some(pairs(&[
            ("variety", "regular"),
            ("exchange", "NSE"),
            ("tradingsymbol", "INFY"),
            ("transaction_type", "BUY"),
            ("quantity", "1"),
            ("product", "CNC"),
            ("order_type", "LIMIT"),
            ("price", "1500"),
            ("tag", "tag1"),
        ]))
    );
}

#[test]
fn modify_and_cancel_order_paths() {
    let k = KiteConnect::new("key", "token");
    let m = k.modify_order_request("151220000000000", "regular", Some("2"), None, None, None, None, None, None);
    assert_eq!(m.path(), "/orders/regular/151220000000000");
    assert_eq!(m.method(), HttpMethod::PUT);
    assert_eq!(
        m.form,
        Some(pairs(&[("order_id", "151220000000000"), ("variety", "regular"), ("quantity", "2")]))
    );
    let c = k.cancel_order_request("151220000000000", "co", Some("1"));
    assert_eq!(c.path(), "/orders/co/151220000000000");
    assert_eq!(c.method(), HttpMethod::DELETE);
    assert_eq!(
        c.form,
        Some(pairs(&[("order_id", "151220000000000"), ("variety", "co"), ("parent_order_id", "1")]))
    );
    let e = k.exit_order_request("151220000000000", "co", Some("1"));
    assert_eq!(e.form, c.form);
    assert_eq!(e.path(), c.path());
}

#[test]
fn convert_position_form() {
    let k = KiteConnect::new("key", "token");
    let r = k.convert_position_request("NSE", "INFY", "BUY", "day", "1", "MIS", "CNC");
    assert_eq!(r.method(), HttpMethod::PUT);
    assert_eq!(
        r.form,
        Some(pairs(&[
            ("exchange", "NSE"),
            ("tradingsymbol", "INFY"),
            ("transaction_type", "BUY"),
            ("position_type", "day"),
            ("quantity", "1"),
            ("old_product", "MIS"),
            ("new_product", "CNC"),
        ]))
    );
}

#[test]
fn market_data_requests() {
    let k = KiteConnect::new("key", "token");
    let instruments = vec!["NSE:INFY".to_string(), "BSE:SENSEX".to_string()];
    for r in [k.quote_request(&instruments), k.ohlc_request(&instruments), k.ltp_request(&instruments)] {
        assert_eq!(r.query, Some(pairs(&[("i", "NSE:INFY"), ("i", "BSE:SENSEX")])));
    }
    assert_eq!(k.ohlc_request(&instruments).path(), "/quote/ohlc");
    let h = k.historical_data_request("5633", "2017-12-15", "2017-12-19", "minute", "0");
    assert_eq!(h.path(), "/instruments/historical/5633/minute");
    assert_eq!(
        h.query,
        Some(pairs(&[("from", "2017-12-15"), ("to", "2017-12-19"), ("continuous", "0")]))
    );
    let f = k.historical_data_flags_request("5633", "a", "b", "day", Some(true), None);
    assert_eq!(f.query, Some(pairs(&[("from", "a"), ("to", "b"), ("continuous", "1")])));
    let f = k.historical_data_flags_request("5633", "a", "b", "day", None, Some(false));
    assert_eq!(f.query, Some(pairs(&[("from", "a"), ("to", "b"), ("oi", "0")])));
    assert_eq!(k.instruments_margins_request("equity").path(), "/margins/equity");
}

#[test]
fn mutual_fund_requests() {
    let k = KiteConnect::new("key", "token");
    let p = k.place_mf_order_request("INF090I01239", "BUY", None, Some("5000"), None);
    assert_eq!(p.path(), "/mf/orders");
    assert_eq!(
        p.form,
        Some(pairs(&[("tradingsymbol", "INF090I01239"), ("transaction_type", "BUY"), ("amount", "5000")]))
    );
    assert_eq!(k.cancel_mf_order_request("x").path(), "/mf/orders/x");
    assert_eq!(k.mf_sips_request(None).path(), "/mf/sips");
    assert_eq!(k.mf_sips_request(Some("s1")).path(), "/mf/sips/s1");
    let s = k.place_mf_sip_request("INF090I01239", "1000", "12", "monthly", None, Some("5"), None);
    assert_eq!(
        s.form,
        Some(pairs(&[
            ("tradingsymbol", "INF090I01239"),
            ("amount", "1000"),
            ("instalments", "12"),
            ("frequency", "monthly"),
            ("instalment_day", "5"),
        ]))
    );
    let m = k.modify_mf_sip_request("s1", "2000", "active", "-1", "weekly", None);
    assert_eq!(m.path(), "/mf/sips/s1");
    assert_eq!(
        m.form,
        Some(pairs(&[("amount", "2000"), ("status", "active"), ("instalments", "-1"), ("frequency", "weekly")]))
    );
    assert_eq!(k.cancel_mf_sip_request("s1").method(), HttpMethod::DELETE);
    assert_eq!(k.mf_holdings_request().path(), "/mf/holdings");
}

#[test]
fn gtt_requests() {
    let k = KiteConnect::new("key", "token");
    let values = vec!["702".to_string(), "1000.5".to_string()];
    let p = k.place_gtt_request("two-leg", "INFY", "NSE", &values, "800", "[]");
    assert_eq!(p.path(), "/gtt/triggers");
    assert_eq!(
        p.form,
        Some(pairs(&[
            ("type", "two-leg"),
            ("tradingsymbol", "INFY"),
            ("exchange", "NSE"),
            ("trigger_values", "702,1000.5"),
            ("last_price", "800"),
            ("orders", "[]"),
        ]))
    );
    let m = k.modify_gtt_request("123", "single", "INFY", "NSE", &vec!["702".to_string()], "800", "[]");
    assert_eq!(m.path(), "/gtt/triggers/123");
    assert_eq!(m.method(), HttpMethod::PUT);
    assert_eq!(k.delete_gtt_request("123").path(), "/gtt/triggers/123");
    assert_eq!(k.get_gtts_request(None).path(), "/gtt/triggers");
    assert_eq!(k.get_gtts_request(Some("9")).path(), "/gtt/triggers/9");
}

#[test]
fn request_url_of_a_plain_request() {
    let k = KiteConnect::new("key", "token");
    let r = ApiRequest::new(KiteEndpoint::Profile, vec![], None, None);
    assert_eq!(k.request_url(&r), Some("https://api.kite.trade/user/profile".to_string()));
    assert_eq!(k.profile_request().path(), "/user/profile");
}

#[test]
fn config_defaults() {
    let r = RetryConfig::default();
    assert_eq!((r.max_retries, r.base_delay_ms, r.max_delay_ms, r.exponential_backoff), (3, 200, 5000, true));
    let c = CacheConfig::default();
    assert!(c.enable_instruments_cache);
    assert_eq!(c.cache_ttl_minutes, 60);
    assert_eq!(c.max_cache_size, 1000);
}

#[test]
fn urls_are_normalised_by_the_parser() {
    let mut k = KiteConnect::new("key", "token");
    k.root = "HTTP://Example.COM".to_string();
    assert_eq!(k.build_url("/a b", None), "http://example.com/a%20b");
    assert_eq!(
        k.build_url("/q", Some(pairs(&[("k", "a b&c")]))),
        "http://example.com/q?k=a+b%26c"
    );
}
