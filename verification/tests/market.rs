use polymarket_v2_backend::api::market::{
    active_market_assets, asset_matches, candidate_slugs, event_start_time_from_slug, get_duration_for_timeframe,
    get_timeframe_slug, is_new_condition, market_is_open, MarketListing, market_slug, market_times, order_by_time_remaining,
    outcome_token_id, parse_clob_token_ids, requested_timeframe, select_up_down_tokens, tokens_from_ids,
    tokens_with_outcomes,
};
use polymarket_v2_backend::api::market::{listing_labels, market_end_time, outcome_price_texts, required_token_id};
use polymarket_v2_backend::api::sse::{discovery_slugs, followable_market, needs_new_market, seconds_remaining, StreamCursor};

fn pairs(v: &[(&str, &str)]) -> Vec<(String, String)> {
    v.iter().map(|(a, b)| (a.to_string(), b.to_string())).collect()
}

#[test]
fn timeframe_durations() {
    assert_eq!(get_duration_for_timeframe("5"), 300);
    assert_eq!(get_duration_for_timeframe("15"), 900);
    assert_eq!(get_duration_for_timeframe("60"), 3600);
    assert_eq!(get_duration_for_timeframe("240"), 14400);
    assert_eq!(get_duration_for_timeframe("D"), 86400);
    assert_eq!(get_duration_for_timeframe("weekly"), 300);
}

#[test]
fn timeframe_slugs() {
    assert_eq!(get_timeframe_slug("D"), "1d");
    assert_eq!(get_timeframe_slug("240"), "4h");
    assert_eq!(get_timeframe_slug("60"), "1h");
    assert_eq!(get_timeframe_slug("15"), "15m");
    assert_eq!(get_timeframe_slug("5"), "5m");
    assert_eq!(get_timeframe_slug("x"), "5m");
}

#[test]
fn slugs_for_current_and_previous_windows() {
    assert_eq!(market_slug("btc", "5m", 1700000100), "btc-updown-5m-1700000100");
    let slugs = candidate_slugs("eth", "15", 1700000123);
    // 1700000123 rounded down to a multiple of 900 s is 1700000100.
    assert_eq!(
        slugs,
        vec![
            "eth-updown-15m-1700000100",
            "eth-updown-15m-1699999200",
            "eth-updown-15m-1699998300",
            "eth-updown-15m-1699997400",
        ]
    );
}

#[test]
fn stream_discovery_tries_btc_then_eth() {
    let slugs = discovery_slugs(1700000123);
    assert_eq!(slugs.len(), 8);
    assert_eq!(slugs[0], "btc-updown-5m-1700000100");
    assert_eq!(slugs[3], "btc-updown-5m-1699999200");
    assert_eq!(slugs[4], "eth-updown-5m-1700000100");
    assert_eq!(slugs[7], "eth-updown-5m-1699999200");
}

#[test]
fn event_start_from_slug() {
    assert_eq!(event_start_time_from_slug("btc-updown-5m-1700000100"), 1700000100);
    assert_eq!(event_start_time_from_slug("eth-updown-5m-1700000400"), 1700000400);
    assert_eq!(event_start_time_from_slug("sol-updown-5m-1700000400"), 0);
    assert_eq!(event_start_time_from_slug("btc-updown-5m-abc"), 0);
}

#[test]
fn clob_token_ids() {
    assert_eq!(parse_clob_token_ids(r#"["111","222"]"#), Some(pairs(&[("111", "Up"), ("222", "Down")])));
    assert_eq!(parse_clob_token_ids(r#"["111","222","333"]"#), Some(pairs(&[("111", "Up"), ("222", "Down")])));
    assert_eq!(parse_clob_token_ids(r#"["111"]"#), None);
    assert_eq!(parse_clob_token_ids("not json"), None);
    assert_eq!(tokens_from_ids(&vec!["a".to_string()]), None);
}

#[test]
fn complete_token_pairs_only() {
    let tokens = vec![
        (Some("1".to_string()), Some("Yes".to_string())),
        (None, Some("No".to_string())),
        (Some("3".to_string()), None),
        (Some("4".to_string()), Some("No".to_string())),
    ];
    assert_eq!(tokens_with_outcomes(&tokens), pairs(&[("1", "Yes"), ("4", "No")]));
}

#[test]
fn up_down_token_selection() {
    let t = pairs(&[("a", "Long"), ("b", "Short")]);
    assert_eq!(select_up_down_tokens(Some(&t)), ("a".to_string(), "b".to_string()));
    let t = pairs(&[("a", "Goes DOWN"), ("b", "moves UP")]);
    assert_eq!(select_up_down_tokens(Some(&t)), ("b".to_string(), "a".to_string()));
    let t = pairs(&[("a", "Yes"), ("b", "No")]);
    assert_eq!(select_up_down_tokens(Some(&t)), ("a".to_string(), "b".to_string()));
    let t = pairs(&[("only", "Yes")]);
    assert_eq!(select_up_down_tokens(Some(&t)), ("only".to_string(), String::new()));
    assert_eq!(select_up_down_tokens(None), (String::new(), String::new()));
}

#[test]
fn outcome_token_ids() {
    let tokens = vec![
        (Some("n".to_string()), Some("No".to_string())),
        (Some("y".to_string()), Some("Yes".to_string())),
        (Some("y2".to_string()), Some("Yes".to_string())),
    ];
    assert_eq!(outcome_token_id(&tokens, "Yes"), Some("y".to_string()));
    assert_eq!(outcome_token_id(&tokens, "No"), Some("n".to_string()));
    assert_eq!(outcome_token_id(&tokens, "Maybe"), None);
    let no_id = vec![(None, Some("Yes".to_string())), (Some("y".to_string()), Some("Yes".to_string()))];
    assert_eq!(outcome_token_id(&no_id, "Yes"), None);
}

#[test]
fn listing_order_is_stable_by_time_remaining() {
    assert_eq!(order_by_time_remaining(&vec![]), Vec::<usize>::new());
    assert_eq!(order_by_time_remaining(&vec![300, 60, 120, 60, -5]), vec![4, 1, 3, 2, 0]);
    assert_eq!(order_by_time_remaining(&vec![7, 7, 7]), vec![0, 1, 2]);
}

#[test]
fn listing_filters_and_defaults() {
    assert_eq!(active_market_assets(), vec!["btc", "eth", "sol", "xrp"]);
    assert_eq!(requested_timeframe(None), "5");
    assert_eq!(requested_timeframe(Some("60".to_string())), "60");
    assert!(asset_matches("BTC", "btc"));
    assert!(!asset_matches("ETH", "btc"));
    let listed = vec!["c1".to_string(), "c2".to_string()];
    assert!(!is_new_condition(&listed, "c2"));
    assert!(is_new_condition(&listed, "c3"));
}

#[test]
fn market_time_window() {
    assert_eq!(market_times(1_700_000_400, 1_700_000_250, "5"), (1_700_000_100, 150));
    assert_eq!(market_times(1_700_003_600, 1_700_000_000, "60"), (1_700_000_000, 3600));
    assert!(market_is_open(None, Some(100), 100));
    assert!(market_is_open(Some(false), Some(101), 100));
    assert!(!market_is_open(Some(true), Some(101), 100));
    assert!(!market_is_open(None, Some(99), 100));
    assert!(!market_is_open(None, None, 100));
}

#[test]
fn stream_market_tracking() {
    assert!(needs_new_market(None, 10));
    assert!(needs_new_market(Some(9), 10));
    assert!(!needs_new_market(Some(10), 10));
    assert_eq!(seconds_remaining(Some(400), 100), 300);
    assert_eq!(seconds_remaining(Some(50), 100), 0);
    assert_eq!(seconds_remaining(None, 100), 300);
    assert!(followable_market(Some(true), Some(false), Some(true), None, Some(200), 100));
    assert!(!followable_market(None, None, Some(true), None, Some(200), 100));
    assert!(!followable_market(Some(true), Some(true), Some(true), None, Some(200), 100));
    assert!(!followable_market(Some(true), None, Some(true), Some(true), Some(200), 100));
    assert!(!followable_market(Some(true), None, Some(true), None, Some(99), 100));
}

#[test]
fn listing_keeps_condition_ids_unique() {
    let mut listing = MarketListing::new();
    assert!(listing.try_add("c1"));
    assert!(listing.try_add("c2"));
    assert!(!listing.try_add("c1"));
    assert!(!listing.try_add("c2"));
    assert!(listing.try_add("c3"));
}

#[test]
fn listing_fields() {
    assert_eq!(
        listing_labels("btc", "15"),
        ("BTC".to_string(), "BTC 15".to_string(), "active".to_string())
    );
    assert_eq!(market_end_time(Some("2024-01-01T00:05:00Z")), Some(1704067500));
    assert_eq!(market_end_time(Some("2024-01-01T01:05:00+01:00")), Some(1704067500));
    assert_eq!(market_end_time(Some("yesterday")), None);
    assert_eq!(market_end_time(None), None);
    assert_eq!(outcome_price_texts(Some(r#"["0.62","0.38"]"#)), vec!["0.62", "0.38"]);
    assert_eq!(outcome_price_texts(Some("0.62,0.38")), vec!["0.5", "0.5"]);
    assert_eq!(outcome_price_texts(None), vec!["0.5", "0.5"]);
}

#[test]
fn price_requests_need_a_token() {
    assert_eq!(required_token_id(Some("123".to_string())), Ok("123".to_string()));
    assert_eq!(required_token_id(Some(String::new())), Err("token_id required".to_string()));
    assert_eq!(required_token_id(None), Err("token_id required".to_string()));
}

#[test]
fn stream_events_are_numbered_in_order() {
    let mut cursor = StreamCursor::new();
    assert!(!cursor.has_market());
    assert_eq!(cursor.next_seq(), 1);
    assert_eq!(cursor.next_seq(), 2);
    cursor.follow(Some("m1"), None, 1_700_000_100);
    assert!(cursor.has_market());
    assert_eq!(cursor.yes_token(), "");
    assert_eq!(cursor.market_id(), "m1");
    assert_eq!(cursor.event_start_time(), 1_700_000_100);
    assert_eq!(cursor.next_seq(), 3);
    cursor.follow(None, Some("t"), 0);
    assert!(!cursor.has_market());
    assert_eq!(cursor.next_seq(), 4);
    assert_eq!(cursor.seq(), 4);
}
