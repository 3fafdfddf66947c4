use kiteconnect::connect::config::{CacheConfig, ResponseCache};
use kiteconnect::connect::instruments::{
    cached_instruments, parse_instruments_csv, rows_from_table, uses_instruments_cache, zip_record,
};

fn field<'a>(row: &'a [(String, String)], key: &str) -> Option<&'a str> {
    row.iter().find(|(k, _)| k == key).map(|(_, v)| v.as_str())
}

#[test]
fn test_csv_core_parsing() {
    let csv_data = "instrument_token,exchange_token,tradingsymbol,name\n408065,1594,INFY,INFOSYS\n5720322,22345,NIFTY15DECFUT,\n";
    let records = parse_instruments_csv(csv_data).unwrap();
    assert_eq!(records.len(), 2);

    let first_record = &records[0];
    assert_eq!(field(first_record, "instrument_token"), Some("408065"));
    assert_eq!(field(first_record, "tradingsymbol"), Some("INFY"));
    assert_eq!(field(first_record, "name"), Some("INFOSYS"));

    let second_record = &records[1];
    assert_eq!(field(second_record, "instrument_token"), Some("5720322"));
    assert_eq!(field(second_record, "tradingsymbol"), Some("NIFTY15DECFUT"));
    assert_eq!(field(second_record, "name"), Some(""));
}

#[test]
fn rows_keep_column_order() {
    let rows = parse_instruments_csv("a,b\n1,2\n").unwrap();
    assert_eq!(
        rows,
        vec![vec![("a".to_string(), "1".to_string()), ("b".to_string(), "2".to_string())]]
    );
}

#[test]
fn last_line_without_newline_is_read() {
    let rows = parse_instruments_csv("tradingsymbol,amc\nINF846K01DP8,Axis").unwrap();
    assert_eq!(rows.len(), 1);
    assert_eq!(field(&rows[0], "tradingsymbol"), Some("INF846K01DP8"));
    assert_eq!(field(&rows[0], "amc"), Some("Axis"));
}

#[test]
fn quoted_fields_are_unquoted() {
    let rows = parse_instruments_csv("name,x\n\"A, B\",1\n").unwrap();
    assert_eq!(field(&rows[0], "name"), Some("A, B"));
}

#[test]
fn empty_text_has_no_rows() {
    assert_eq!(parse_instruments_csv(""), Some(vec![]));
    assert_eq!(parse_instruments_csv("a,b\n"), Some(vec![]));
}

fn pair(k: &str, v: &str) -> (String, String) {
    (k.to_string(), v.to_string())
}

#[test]
fn records_of_any_length_keep_the_fields_with_a_header() {
    assert_eq!(parse_instruments_csv("a,b\n1,2,3\n"), Some(vec![vec![pair("a", "1"), pair("b", "2")]]));
    assert_eq!(parse_instruments_csv("a,b\n1\n"), Some(vec![vec![pair("a", "1")]]));
    assert_eq!(
        parse_instruments_csv("a,b,c\n1,2,3\n4\n"),
        Some(vec![vec![pair("a", "1"), pair("b", "2"), pair("c", "3")], vec![pair("a", "4")]])
    );
}

#[test]
fn zipping_stops_at_the_shorter_side() {
    let headers = vec!["a".to_string(), "b".to_string()];
    let short = vec!["1".to_string()];
    assert_eq!(zip_record(&headers, &short), vec![("a".to_string(), "1".to_string())]);
    let long = vec!["1".to_string(), "2".to_string(), "3".to_string()];
    assert_eq!(zip_record(&headers, &long).len(), 2);
    let rows = rows_from_table(&headers, &vec![short, long]);
    assert_eq!(rows.len(), 2);
    assert_eq!(rows[1][1], ("b".to_string(), "2".to_string()));
}

#[test]
fn instruments_cache_only_for_the_full_list() {
    let on = Some(CacheConfig::default());
    assert!(uses_instruments_cache(&on, None));
    assert!(!uses_instruments_cache(&on, Some("NSE")));
    assert!(!uses_instruments_cache(&None, None));
    let mut off = CacheConfig::default();
    off.enable_instruments_cache = false;
    assert!(!uses_instruments_cache(&Some(off), None));
}

#[test]
fn cached_instruments_expire_after_the_ttl() {
    let minute: u64 = 60_000_000_000;
    let mut cache: ResponseCache<Vec<u8>> = ResponseCache::new(60);
    let config = Some(CacheConfig::default());
    assert_eq!(cached_instruments(&cache, &config, None, 0), None);
    cache.set_instruments(vec![1, 2, 3], 10 * minute);
    assert_eq!(cached_instruments(&cache, &config, None, 10 * minute), Some(&vec![1, 2, 3]));
    assert_eq!(cached_instruments(&cache, &config, None, 69 * minute), Some(&vec![1, 2, 3]));
    assert_eq!(cached_instruments(&cache, &config, None, 70 * minute), None);
    assert_eq!(cached_instruments(&cache, &config, Some("NSE"), 10 * minute), None);
    assert_eq!(cached_instruments(&cache, &config, None, 5 * minute), None);
}
