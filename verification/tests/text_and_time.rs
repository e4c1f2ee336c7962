use crm::metadata::Publisher;
use crm::notify::to_ts;
use crm::text::{decimal_string, push_decimal, push_signed_decimal};
use crm::time::{ts_to_rfc3339, Timestamp};

#[test]
fn decimal_strings() {
    assert_eq!(decimal_string(0), "0");
    assert_eq!(decimal_string(7), "7");
    assert_eq!(decimal_string(10), "10");
    assert_eq!(decimal_string(1234567890), "1234567890");
    assert_eq!(decimal_string(u64::MAX), u64::MAX.to_string());
}

#[test]
fn decimals_append_to_what_is_there() {
    let mut s = "n=".to_string();
    push_decimal(&mut s, 42);
    assert_eq!(s, "n=42");
}

#[test]
fn signed_decimals() {
    for n in [0i64, 5, -5, 123, -123, i64::MAX, i64::MIN] {
        let mut s = String::new();
        push_signed_decimal(&mut s, n);
        assert_eq!(s, n.to_string());
    }
}

fn publisher_named(name: &str) -> String {
    let p = Publisher { id: 1, name: name.to_string(), avatar: String::new() };
    let c = crm::metadata::Content {
        id: 0,
        name: String::new(),
        description: String::new(),
        publishers: vec![p],
        url: String::new(),
        image: String::new(),
        typ: 0,
        created_at: None,
        views: 0,
        likes: 0,
        dislikes: 0,
    };
    let text = c.to_body();
    let start = text.find("name: ").unwrap() + "name: ".len();
    let start = start + text[start..].find("name: ").unwrap() + "name: ".len();
    let end = text[start..].find(", avatar").unwrap() + start;
    text[start..end].to_string()
}

#[test]
fn quoted_strings() {
    assert_eq!(publisher_named("abc"), "\"abc\"");
    assert_eq!(publisher_named(""), "\"\"");
    assert_eq!(publisher_named("a\"b"), "\"a\\\"b\"");
    assert_eq!(publisher_named("line\n"), "\"line\\n\"");
}

#[test]
fn rfc3339_of_instants() {
    let at = |seconds: i64, nanos: i32| ts_to_rfc3339(Timestamp { seconds, nanos });
    assert_eq!(at(0, 0), Some("1970-01-01T00:00:00+00:00".to_string()));
    assert_eq!(at(-1, 0), Some("1969-12-31T23:59:59+00:00".to_string()));
    assert_eq!(at(0, 2_000_000_000), None);
    assert_eq!(at(i64::MAX, 0), None);
}

#[test]
fn ts_to_rfc3339_wraps_negative_nanos() {
    assert_eq!(ts_to_rfc3339(Timestamp { seconds: 0, nanos: -1 }), None);
    assert_eq!(
        ts_to_rfc3339(Timestamp { seconds: 1704067200, nanos: 0 }),
        Some("2024-01-01T00:00:00+00:00".to_string())
    );
}

#[test]
fn now_is_after_the_epoch() {
    let now = to_ts();
    assert!(now.seconds > 1_600_000_000);
    assert!(now.nanos >= 0 && now.nanos < 1_000_000_000);
}
