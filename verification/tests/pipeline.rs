use inline_cards::EventAction;
use inline_cards::ImageCard;
use inline_cards::InboundEvent;
use inline_cards::SearchHit;
use inline_cards::SearchResponse;
use inline_cards::aggregate;
use inline_cards::build_query_plan;
use inline_cards::build_reply;
use inline_cards::handle_event;
use inline_cards::normalize_hit;

fn hit(docid: &str, icon_url: &str, format: Option<&str>) -> SearchHit {
    SearchHit {
        docid: docid.to_string(),
        icon_url: icon_url.to_string(),
        format: format.map(|f| f.to_string()),
    }
}

fn assert_card(card: &ImageCard, id: &str, url: &str) {
    assert_eq!(card.id, id);
    assert_eq!(card.photo_url, url);
    assert_eq!(card.thumb_url, url);
    assert_eq!(card.width, 500);
    assert_eq!(card.height, 500);
}

#[test]
fn gif_format_always_dropped() {
    assert!(normalize_hit(&hit("a", "x.png", Some("gif")), "https://proxy").is_none());
    assert!(normalize_hit(&hit("a", "x.jpg", Some("gif")), "https://proxy").is_none());
    assert!(normalize_hit(&hit("a", "x.gif", Some("gif")), "https://proxy").is_none());
    assert!(normalize_hit(&hit("a", "", Some("gif")), "https://proxy").is_none());
}

#[test]
fn gif_suffix_dropped_without_gif_format() {
    assert!(normalize_hit(&hit("a", "y.gif", None), "https://proxy").is_none());
    assert!(normalize_hit(&hit("a", "y.gif", Some("png")), "https://proxy").is_none());
    assert!(normalize_hit(&hit("a", "deep/path/y.gif", Some("jpeg")), "https://proxy").is_none());
}

#[test]
fn surviving_hit_yields_one_proxied_card() {
    let card = normalize_hit(&hit("doc-1", "img/cat.png", None), "https://proxy").unwrap();
    assert_card(&card, "doc-1", "https://proxy/img/cat.png@jpg");

    let card = normalize_hit(&hit("doc-2", "b.jpg", Some("jpeg")), "http://p:8080").unwrap();
    assert_card(&card, "doc-2", "http://p:8080/b.jpg@jpg");

    // "gift" is not "gif", and ".gifx" does not end in ".gif".
    let card = normalize_hit(&hit("doc-3", "a.gifx", Some("gift")), "https://proxy").unwrap();
    assert_card(&card, "doc-3", "https://proxy/a.gifx@jpg");
}

#[test]
fn normalizer_is_idempotent() {
    let h = hit("doc-1", "img/cat.png", Some("png"));
    let first = normalize_hit(&h, "https://proxy").unwrap();
    let second = normalize_hit(&h, "https://proxy").unwrap();
    assert_eq!(first.id, second.id);
    assert_eq!(first.photo_url, second.photo_url);
    assert_eq!(first.thumb_url, second.thumb_url);
    assert_eq!(first.width, second.width);
    assert_eq!(first.height, second.height);
}

#[test]
fn aggregate_caps_at_fifty() {
    let mut instant_hits = Vec::new();
    for i in 0..40 {
        instant_hits.push(hit(&format!("i{}", i), &format!("i{}.png", i), None));
    }
    let mut photo_hits = Vec::new();
    for i in 0..20 {
        photo_hits.push(hit(&format!("p{}", i), &format!("p{}.png", i), None));
    }
    let instant = SearchResponse { results: Some(instant_hits) };
    let photos = SearchResponse { results: Some(photo_hits) };
    let cards = aggregate(&instant, &photos, "https://proxy");
    assert_eq!(cards.len(), 50);
}

#[test]
fn aggregate_length_is_survivor_count_below_cap() {
    let instant = SearchResponse {
        results: Some(vec![
            hit("i0", "a.png", None),
            hit("i1", "b.gif", None),
            hit("i2", "c.png", Some("gif")),
        ]),
    };
    let photos = SearchResponse {
        results: Some(vec![hit("p0", "d.png", None), hit("p1", "e.jpg", Some("jpeg"))]),
    };
    let cards = aggregate(&instant, &photos, "https://proxy");
    assert_eq!(cards.len(), 3);
}

#[test]
fn aggregate_keeps_instant_results_first() {
    let instant = SearchResponse {
        results: Some(vec![
            hit("i0", "a.png", None),
            hit("i1", "b.gif", None),
            hit("i2", "c.png", None),
        ]),
    };
    let photos = SearchResponse {
        results: Some(vec![hit("p0", "d.gif", None), hit("p1", "e.png", None)]),
    };
    let cards = aggregate(&instant, &photos, "https://proxy");
    let ids: Vec<&str> = cards.iter().map(|c| c.id.as_str()).collect();
    assert_eq!(ids, vec!["i0", "i2", "p1"]);
}

#[test]
fn aggregate_truncation_prefers_instant_results() {
    let mut instant_hits = Vec::new();
    for i in 0..60 {
        instant_hits.push(hit(&format!("i{}", i), &format!("i{}.png", i), None));
    }
    let instant = SearchResponse { results: Some(instant_hits) };
    let photos = SearchResponse { results: Some(vec![hit("p0", "d.png", None)]) };
    let cards = aggregate(&instant, &photos, "https://proxy");
    assert_eq!(cards.len(), 50);
    for (i, card) in cards.iter().enumerate() {
        assert_eq!(card.id, format!("i{}", i));
    }
}

#[test]
fn query_plan_builds_both_urls() {
    let plan = build_query_plan("cat");
    assert_eq!(
        plan.instant_url,
        "https://rkgk.api.searchify.com/v1/indexes/kym_production/instantlinks\
         ?query=cat&fetch=icon_url,format&len=50"
    );
    assert_eq!(
        plan.photos_url,
        "https://rkgk.api.searchify.com/v1/indexes/kym_production/search\
         ?q=cat&fetch=icon_url,format,title&__type=Photo&len=50"
    );
}

#[test]
fn query_plan_percent_encodes_the_query() {
    let plan = build_query_plan("bar baz&qux");
    assert_eq!(
        plan.instant_url,
        "https://rkgk.api.searchify.com/v1/indexes/kym_production/instantlinks\
         ?query=bar%20baz%26qux&fetch=icon_url,format&len=50"
    );
    assert_eq!(
        plan.photos_url,
        "https://rkgk.api.searchify.com/v1/indexes/kym_production/search\
         ?q=bar%20baz%26qux&fetch=icon_url,format,title&__type=Photo&len=50"
    );
}

#[test]
fn empty_query_is_ignored() {
    let action = handle_event(&InboundEvent::InlineQuery { query: String::new() });
    assert!(matches!(action, EventAction::Ignore));
}

#[test]
fn non_inline_events_are_ignored() {
    let action = handle_event(&InboundEvent::Other);
    assert!(matches!(action, EventAction::Ignore));
}

#[test]
fn non_empty_query_is_dispatched() {
    let action = handle_event(&InboundEvent::InlineQuery { query: "cat".to_string() });
    match action {
        EventAction::Dispatch { plan } => {
            assert!(plan.instant_url.ends_with("?query=cat&fetch=icon_url,format&len=50"));
            assert!(
                plan.photos_url.ends_with("?q=cat&fetch=icon_url,format,title&__type=Photo&len=50")
            );
        }
        EventAction::Ignore => panic!("non-empty query must be dispatched"),
    }
}

#[test]
fn end_to_end_single_survivor() {
    let action = handle_event(&InboundEvent::InlineQuery { query: "cat".to_string() });
    assert!(matches!(action, EventAction::Dispatch { .. }));

    let instant = SearchResponse { results: Some(vec![hit("a", "x.png", None)]) };
    let photos = SearchResponse { results: Some(vec![hit("b", "y.gif", None)]) };
    let reply = build_reply(&instant, &photos, "https://proxy");
    assert_eq!(reply.cards.len(), 1);
    assert_card(&reply.cards[0], "a", "https://proxy/x.png@jpg");
    assert_eq!(reply.cache_seconds, 0);
}

#[test]
fn end_to_end_absent_results_give_empty_reply() {
    let instant = SearchResponse { results: None };
    let photos = SearchResponse { results: None };
    let reply = build_reply(&instant, &photos, "https://proxy");
    assert_eq!(reply.cards.len(), 0);
    assert_eq!(reply.cache_seconds, 0);
}

#[test]
fn every_error_kind_is_fatal() {
    for kind in [
        inline_cards::ErrorKind::StartupConfig,
        inline_cards::ErrorKind::Stream,
        inline_cards::ErrorKind::BackendRequest,
        inline_cards::ErrorKind::BackendParse,
        inline_cards::ErrorKind::ReplySend,
    ] {
        assert!(inline_cards::error_is_fatal(&kind));
    }
}
