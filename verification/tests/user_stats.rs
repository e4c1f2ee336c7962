use crm::time::Timestamp;
use crm::user_stats::{
    build_query, fetch_error_message, ids_query, query_sql, timestamp_query, try_timestamp_query,
    IdQuery, QueryRequest, TimeQuery,
};

fn ts(seconds: i64) -> Timestamp {
    Timestamp { seconds, nanos: 0 }
}

#[test]
fn timestamp_query_without_bounds_is_true() {
    assert_eq!(timestamp_query("created_at", None, None), "TRUE");
}

#[test]
fn timestamp_query_with_upper_bound_only() {
    assert_eq!(
        timestamp_query("created_at", None, Some(ts(0))),
        "created_at <= '1970-01-01T00:00:00+00:00'"
    );
}

#[test]
fn timestamp_query_with_lower_bound_only() {
    assert_eq!(
        timestamp_query("last_visited_at", Some(ts(1704067200)), None),
        "last_visited_at >= '2024-01-01T00:00:00+00:00'"
    );
}

#[test]
fn timestamp_query_with_both_bounds_puts_upper_first() {
    assert_eq!(
        timestamp_query("created_at", Some(ts(0)), Some(ts(86400))),
        "created_at BETWEEN '1970-01-02T00:00:00+00:00' AND '1970-01-01T00:00:00+00:00'"
    );
}

#[test]
fn timestamp_query_keeps_fractional_seconds() {
    let t = Timestamp { seconds: 1, nanos: 500_000_000 };
    assert_eq!(
        timestamp_query("c", Some(t), None),
        "c >= '1970-01-01T00:00:01.500+00:00'"
    );
}

#[test]
fn try_timestamp_query_refuses_negative_nanos() {
    let bad = Timestamp { seconds: 0, nanos: -1 };
    assert_eq!(try_timestamp_query("c", Some(bad), None), None);
    assert_eq!(try_timestamp_query("c", None, Some(bad)), None);
    assert_eq!(try_timestamp_query("c", None, None), Some("TRUE".to_string()));
}

#[test]
fn ids_query_without_ids_is_true() {
    assert_eq!(ids_query("viewed", vec![]), "TRUE");
}

#[test]
fn ids_query_lists_ids_like_a_debug_vector() {
    assert_eq!(ids_query("viewed", vec![201486]), "array[201486] <@ viewed");
    assert_eq!(
        ids_query("viewed_but_not_started", vec![1, 22, 333, 0, 4294967295]),
        "array[1, 22, 333, 0, 4294967295] <@ viewed_but_not_started"
    );
}

#[test]
fn build_query_joins_time_conditions_then_ids_then_limit() {
    let q = QueryRequest {
        timestamps: vec![
            ("created_at".to_string(), TimeQuery { lower: Some(ts(0)), upper: None }),
            ("last_visited_at".to_string(), TimeQuery { lower: None, upper: None }),
        ],
        ids: vec![
            ("viewed".to_string(), IdQuery { ids: vec![1, 2] }),
            ("started".to_string(), IdQuery { ids: vec![] }),
        ],
        limit: Some(3),
    };
    assert_eq!(
        build_query(&q),
        "SELECT email, name FROM user_stats WHERE created_at >= '1970-01-01T00:00:00+00:00' AND TRUEarray[1, 2] <@ viewed AND TRUE LIMIT 3"
    );
}

#[test]
fn build_query_of_empty_request() {
    let q = QueryRequest { timestamps: vec![], ids: vec![], limit: None };
    assert_eq!(build_query(&q), "SELECT email, name FROM user_stats WHERE ");
}

#[test]
fn query_sql_matches_build_query_or_refuses() {
    let good = QueryRequest {
        timestamps: vec![("created_at".to_string(), TimeQuery { lower: Some(ts(60)), upper: None })],
        ids: vec![],
        limit: Some(10),
    };
    let raw = query_sql(&good).expect("renders");
    assert_eq!(raw.query, build_query(&good));
    let bad = QueryRequest {
        timestamps: vec![(
            "created_at".to_string(),
            TimeQuery { lower: None, upper: Some(Timestamp { seconds: 0, nanos: 2_000_000_000 }) },
        )],
        ids: vec![],
        limit: None,
    };
    assert!(query_sql(&bad).is_none());
}

#[test]
fn fetch_error_message_names_the_query() {
    assert_eq!(
        fetch_error_message("select 1"),
        "failed to fetch data: select 1"
    );
}

#[test]
fn distinct_columns_are_checked() {
    let q = QueryRequest {
        timestamps: vec![
            ("a".to_string(), TimeQuery { lower: None, upper: None }),
            ("b".to_string(), TimeQuery { lower: None, upper: None }),
        ],
        ids: vec![("a".to_string(), IdQuery { ids: vec![] })],
        limit: None,
    };
    assert!(q.has_distinct_columns());
    let dup = QueryRequest {
        timestamps: vec![
            ("a".to_string(), TimeQuery { lower: None, upper: None }),
            ("a".to_string(), TimeQuery { lower: None, upper: None }),
        ],
        ids: vec![],
        limit: None,
    };
    assert!(!dup.has_distinct_columns());
}
