use crm::config::{AppConfig, AuthConfig, ServerConfig};
use crm::metadata::{
    creation_window,
    Content, MaterializeRequest, MetadataService, Publisher, Tpl, AVATAR_PLACEHOLDER,
    CONTENT_PLACEHOLDER,
};
use crm::time::Timestamp;
use std::collections::HashSet;

fn sample() -> Content {
    Content {
        id: 7,
        name: "Intro".to_string(),
        description: "A \"short\" one".to_string(),
        publishers: vec![
            Publisher { id: 10001, name: "Ann".to_string(), avatar: "a.png".to_string() },
            Publisher { id: 2, name: "Bo".to_string(), avatar: "b.png".to_string() },
        ],
        url: "https://x/1".to_string(),
        image: "https://x/1.png".to_string(),
        typ: -3,
        created_at: Some(Timestamp { seconds: -60, nanos: 5 }),
        views: 100,
        likes: 0,
        dislikes: 4294967295,
    }
}

const SAMPLE_DEBUG: &str = "Content { id: 7, name: \"Intro\", description: \"A \\\"short\\\" one\", publishers: [Publisher { id: 10001, name: \"Ann\", avatar: \"a.png\" }, Publisher { id: 2, name: \"Bo\", avatar: \"b.png\" }], url: \"https://x/1\", image: \"https://x/1.png\", typ: -3, created_at: Some(Timestamp { seconds: -60, nanos: 5 }), views: 100, likes: 0, dislikes: 4294967295 }";

#[test]
fn content_body_renders_every_field() {
    assert_eq!(sample().to_body(), format!("Content: {}", SAMPLE_DEBUG));
}

#[test]
fn content_body_matches_derived_debug_layout() {
    // The library's own types derive `Debug` with the same fields in the same order.
    assert_eq!(format!("Content: {:?}", sample()), sample().to_body());
}

#[test]
fn content_body_without_creation_time_or_publishers() {
    let mut c = sample();
    c.created_at = None;
    c.publishers = vec![];
    assert_eq!(format!("Content: {:?}", c), c.to_body());
    assert!(c.to_body().contains("publishers: [], "));
    assert!(c.to_body().contains("created_at: None, "));
}

#[test]
fn tpl_body_lists_contents() {
    let contents = vec![sample(), sample()];
    assert_eq!(
        Tpl(&contents).to_body(),
        format!("Tpl: [{}, {}]", SAMPLE_DEBUG, SAMPLE_DEBUG)
    );
    assert_eq!(Tpl(&[]).to_body(), "Tpl: []");
}

#[test]
fn sample_publisher() {
    for _ in 0..50 {
        let p = Publisher::new();
        assert!((10000..2000000).contains(&p.id));
        assert_eq!(p.avatar, AVATAR_PLACEHOLDER);
    }
}

#[test]
fn sample_content() {
    for id in 0..30u32 {
        let c = Content::materialize(id);
        assert_eq!(c.id, id);
        assert!((1..=8).contains(&c.publishers.len()));
        assert_eq!(c.url, CONTENT_PLACEHOLDER);
        assert_eq!(c.image, CONTENT_PLACEHOLDER);
        assert!((123432..10000000).contains(&c.views));
        assert!((1234..100000).contains(&c.likes));
        assert!((123..10000).contains(&c.dislikes));
        let created = c.created_at.expect("created");
        let now = crm::notify::to_ts();
        assert!(created.seconds <= now.seconds);
        assert!(created.seconds >= now.seconds - 365 * 86400 - 1);
    }
}

#[test]
fn materialize_requests_are_distinct() {
    let reqs = MaterializeRequest::new_with_ids(&[3, 1, 3, 2, 1]);
    assert_eq!(
        reqs,
        vec![
            MaterializeRequest { id: 3 },
            MaterializeRequest { id: 1 },
            MaterializeRequest { id: 2 }
        ]
    );
    let ids: HashSet<u32> = reqs.iter().map(|r| r.id).collect();
    assert_eq!(ids, HashSet::from([1, 2, 3]));
    assert!(MaterializeRequest::new_with_ids(&[]).is_empty());
}

#[test]
fn metadata_service_keeps_its_config() {
    let config = AppConfig {
        server: ServerConfig { db_url: "postgres://x".to_string(), port: 5001 },
        auth: AuthConfig { pk: "pk".to_string() },
    };
    let _svc = MetadataService::new(config);
}

#[test]
fn request_stream_is_materialized_in_order_until_an_error() {
    let config = AppConfig {
        server: ServerConfig { db_url: String::new(), port: 0 },
        auth: AuthConfig { pk: String::new() },
    };
    let svc = MetadataService::new(config);
    let items: Vec<Result<MaterializeRequest, String>> = vec![
        Ok(MaterializeRequest { id: 1 }),
        Ok(MaterializeRequest { id: 2 }),
        Ok(MaterializeRequest { id: 3 }),
        Err("stop".to_string()),
        Ok(MaterializeRequest { id: 4 }),
    ];
    let mut it = items.into_iter();
    let mut ids = Vec::new();
    while let Some(c) = svc.answer_next(it.next()) {
        ids.push(c.id);
    }
    assert_eq!(ids, vec![1, 2, 3]);
}

#[test]
fn sample_names_have_first_and_last_parts() {
    for _ in 0..20 {
        let p = Publisher::new();
        let (first, last) = p.name.split_once(' ').unwrap();
        assert!(!first.is_empty() && !last.is_empty());
        let c = Content::materialize(1);
        assert!(c.name.contains(' ') && !c.name.starts_with(' ') && !c.name.ends_with(' '));
        let t = c.created_at.unwrap();
        assert!((0..1_000_000_000).contains(&t.nanos));
    }
}

#[test]
fn sample_descriptions_are_short_sentences() {
    for _ in 0..20 {
        let c = Content::materialize(5);
        let text = c.description.strip_suffix('.').expect("full stop");
        let words: Vec<&str> = text.split(' ').collect();
        assert!((3..7).contains(&words.len()));
        assert!(words.iter().all(|w| !w.is_empty() && w.chars().all(|ch| ch.is_ascii_lowercase())));
    }
}

#[test]
fn creation_window_is_the_year_before_now() {
    let now = Timestamp { seconds: 1_704_067_200, nanos: 7 };
    let (start, end) = creation_window(now);
    assert_eq!(start, Timestamp { seconds: 1_704_067_200 - 31_536_000, nanos: 7 });
    assert_eq!(end, now);
}
