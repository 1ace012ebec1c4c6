use rustico::anilist::{anilist_request_body, anilist_window, format_episodes, record_episodes_sent};
use rustico::api::{metrics_reply, stats_reply, HealthResponse};
use rustico::config::{
    ApiConfig, Config, DiscordConfig, MessagesConfig, SchedulingConfig, SourcesConfig,
};
use rustico::discord::{
    avatar_data_uri, avatar_payload, backoff_ms, bucket_exhausted, next_delivery_step,
    webhook_payload, webhook_post_url, AttemptOutcome, DeliveryFailure, DeliveryStep,
};
use rustico::models::{
    AiringSchedule, AniListCover, AniListMedia, AniListStudio, AniListStudios, AniListTitle,
    Component,
};
use rustico::sources::ann::{format_articles, parse_feed, AnnSource, FeedItem};
use rustico::state::AppState;

fn config() -> Config {
    Config {
        discord: DiscordConfig {
            webhook_urls: vec!["https://discord.com/api/webhooks/1/a".to_string()],
            delay_between_messages_ms: 800,
        },
        sources: SourcesConfig { ann_rss_urls: vec![], anilist_enabled: true },
        scheduling: SchedulingConfig { check_interval_minutes: 15, demo_mode_item_limit: 3 },
        api: ApiConfig { enabled: true, host: "127.0.0.1".to_string(), port: 3000 },
        messages: MessagesConfig::default(),
    }
}

fn item(guid: Option<&str>, link: Option<&str>, title: Option<&str>, desc: Option<&str>) -> FeedItem {
    FeedItem {
        title: title.map(String::from),
        link: link.map(String::from),
        description: desc.map(String::from),
        guid: guid.map(String::from),
    }
}

fn texts(c: &Component) -> Vec<String> {
    match c {
        Component::Container(k) => k
            .components
            .iter()
            .map(|x| match x {
                Component::TextDisplay(t) => t.content.clone(),
                Component::Separator(s) => format!("--{:?}", s.divider),
                Component::Section(s) => format!("section:{}", s.accessory.media.url),
                _ => "?".to_string(),
            })
            .collect(),
        _ => vec![],
    }
}

#[test]
fn article_message_with_default_layout() {
    let mut state = AppState::default();
    state.initialized = true;
    let mut cfg = config();
    cfg.messages.formatting.ann.show_timestamp = true;
    let items = vec![item(Some("g1"), Some("https://x/1"), Some("Big News"), Some("<p>Hello &amp; bye</p>"))];
    let notes = format_articles(&mut state, &cfg, &items, 1700000000);
    assert_eq!(notes.len(), 1);
    assert_eq!(notes[0].title, "Big News");
    match &notes[0].components[0] {
        Component::Container(k) => assert_eq!(k.accent_color, Some(0x1E90FF)),
        _ => panic!("not a container"),
    }
    assert_eq!(
        texts(&notes[0].components[0]),
        vec![
            "# 📰 Big News".to_string(),
            "[Read full article](https://x/1)".to_string(),
            "--Some(true)".to_string(),
            "Hello & bye".to_string(),
            "-# Anime News Network • <t:1700000000:R>".to_string(),
        ]
    );
    assert!(state.is_seen_ann("g1"));
}

#[test]
fn articles_are_announced_once() {
    let mut state = AppState::default();
    state.initialized = true;
    let cfg = config();
    let items = vec![
        item(Some("a"), None, Some("A"), None),
        item(None, Some("https://x/b"), Some("B"), None),
        item(Some("a"), None, Some("A again"), None),
        item(None, None, Some("no id"), None),
        item(Some(""), Some("https://x/ignored"), Some("empty guid"), None),
    ];
    let notes = format_articles(&mut state, &cfg, &items, 0);
    let titles: Vec<&str> = notes.iter().map(|n| n.title.as_str()).collect();
    assert_eq!(titles, vec!["A", "B"]);
    assert!(state.is_seen_ann("https://x/b"));
    let again = format_articles(&mut state, &cfg, &items, 0);
    assert!(again.is_empty());
}

#[test]
fn first_run_sends_demo_items_only() {
    let mut state = AppState::default();
    let cfg = config();
    let items: Vec<FeedItem> = (0..10).map(|i| item(Some(&format!("g{}", i)), None, None, None)).collect();
    let notes = format_articles(&mut state, &cfg, &items, 0);
    assert_eq!(notes.len(), 3);
    assert_eq!(notes[0].title, "Untitled");
    assert_eq!(state.seen_ann.len(), 3);
    let mut later = AppState::default();
    later.initialized = true;
    let many: Vec<FeedItem> = (0..30).map(|i| item(Some(&format!("g{}", i)), None, None, None)).collect();
    assert_eq!(format_articles(&mut later, &cfg, &many, 0).len(), 20);
}

#[test]
fn filter_and_format_and_update_state() {
    let source = AnnSource { rss_url: "https://www.animenewsnetwork.com/all/rss.xml".to_string() };
    let mut state = AppState::default();
    let cfg = config();
    let notes = source.filter_and_format(&mut state, &cfg, vec![item(Some("x"), None, Some("T"), Some(""))]);
    assert_eq!(notes.len(), 1);
    assert!(texts(&notes[0].components[0]).contains(&"*No description available.*".to_string()));
    source.update_state(&mut state, 2);
    assert_eq!(state.stats.total_articles_sent, 2);
    assert!(state.stats.last_check.is_some());
}

#[test]
fn parse_feed_reads_items() {
    let feed = br#"<?xml version="1.0"?><rss version="2.0"><channel><title>t</title><link>l</link><description>d</description>
<item><title>One</title><link>https://x/1</link><guid>id-1</guid><description>&lt;p&gt;Desc&lt;/p&gt;</description></item>
<item><title>Two</title><link>https://x/2</link></item>
</channel></rss>"#;
    let items = parse_feed(feed).unwrap();
    assert_eq!(items.len(), 2);
    assert_eq!(items[0].guid.as_deref(), Some("id-1"));
    assert_eq!(items[0].description.as_deref(), Some("<p>Desc</p>"));
    assert_eq!(items[1].guid, None);
    assert_eq!(items[1].link.as_deref(), Some("https://x/2"));
    assert!(parse_feed(b"not xml at all").is_err());
}

fn schedule(id: i64, episode: i32, airing_at: i64, desc: Option<&str>) -> AiringSchedule {
    AiringSchedule {
        id,
        episode,
        airing_at,
        media: AniListMedia {
            title: AniListTitle { romaji: Some("Romaji".to_string()), english: None },
            site_url: format!("https://anilist.co/anime/{}", id),
            cover_image: Some(AniListCover { large: Some("https://img/c.jpg".to_string()) }),
            description: desc.map(String::from),
            average_score: Some(85),
            studios: Some(AniListStudios { nodes: vec![AniListStudio { name: "Studio Test".to_string() }] }),
        },
    }
}

#[test]
fn episode_message_with_default_layout() {
    let mut state = AppState::default();
    state.initialized = true;
    let cfg = config();
    let notes = format_episodes(&mut state, &cfg, &vec![schedule(7, 5, 1700000000, Some("A <i>test</i>"))]);
    assert_eq!(notes.len(), 1);
    assert_eq!(notes[0].title, "Romaji");
    assert_eq!(notes[0].episode, 5);
    assert_eq!(
        texts(&notes[0].components[0]),
        vec![
            "section:https://img/c.jpg".to_string(),
            "--Some(true)".to_string(),
            "A test".to_string(),
            "**🎨 Studio**\nStudio Test\n\n**⭐ Average Score**\n85/100".to_string(),
            "--Some(false)".to_string(),
            "-# AniList • 85/100".to_string(),
        ]
    );
    match &notes[0].components[0] {
        Component::Container(k) => match &k.components[0] {
            Component::Section(s) => {
                assert_eq!(s.components.len(), 2);
                match &s.components[0] {
                    Component::TextDisplay(t) => assert_eq!(
                        t.content,
                        "# 🎬 Romaji\n**Episode 5** • aired <t:1700000000:R>"
                    ),
                    _ => panic!("not text"),
                }
            }
            _ => panic!("not a section"),
        },
        _ => panic!("not a container"),
    }
}

#[test]
fn episodes_are_announced_once_and_counted() {
    let mut state = AppState::default();
    let cfg = config();
    let list: Vec<AiringSchedule> = (0..5).map(|i| schedule(i, 1, 0, None)).collect();
    let first = format_episodes(&mut state, &cfg, &list);
    assert_eq!(first.len(), 3);
    state.initialized = true;
    let second = format_episodes(&mut state, &cfg, &list);
    assert_eq!(second.len(), 2);
    assert!(format_episodes(&mut state, &cfg, &list).is_empty());
    record_episodes_sent(&mut state, 3);
    assert_eq!(state.stats.total_episodes_sent, 3);
}

#[test]
fn anilist_request() {
    assert_eq!(anilist_window(1700000000), (1699913600, 1700000000));
    let body: serde_json::Value = serde_json::from_str(&anilist_request_body(-5, 10)).unwrap();
    assert_eq!(body["variables"]["from"], -5);
    assert_eq!(body["variables"]["to"], 10);
    let query = body["query"].as_str().unwrap();
    assert!(query.starts_with("\n        query ($from: Int, $to: Int) {\n            Page(perPage: 50) {\n"));
    assert!(query.contains("\n                    id\n                    episode\n                    airingAt\n"));
    assert!(query.ends_with("\n            }\n        }\n    "));
    assert_eq!(query.len(), 677);
}

#[test]
fn delivery_decisions() {
    assert_eq!(backoff_ms(0), 1000);
    assert_eq!(backoff_ms(1), 2000);
    assert_eq!(backoff_ms(2), 4000);
    assert!(matches!(next_delivery_step(0, AttemptOutcome::Response(204)), DeliveryStep::Delivered));
    assert!(matches!(next_delivery_step(0, AttemptOutcome::Response(429)), DeliveryStep::RateLimited));
    assert!(matches!(next_delivery_step(1, AttemptOutcome::Response(429)), DeliveryStep::RateLimited));
    assert!(matches!(next_delivery_step(2, AttemptOutcome::Response(429)), DeliveryStep::RateLimitedGiveUp));
    assert!(matches!(next_delivery_step(1, AttemptOutcome::Response(503)), DeliveryStep::Backoff(2000)));
    assert!(matches!(next_delivery_step(2, AttemptOutcome::Response(503)), DeliveryStep::Backoff(4000)));
    assert!(matches!(
        next_delivery_step(3, AttemptOutcome::Response(503)),
        DeliveryStep::GiveUp(DeliveryFailure::Status(503))
    ));
    assert!(matches!(
        next_delivery_step(0, AttemptOutcome::Response(400)),
        DeliveryStep::GiveUp(DeliveryFailure::Status(400))
    ));
    assert!(matches!(next_delivery_step(0, AttemptOutcome::NetworkError), DeliveryStep::Backoff(1000)));
    assert!(matches!(next_delivery_step(1, AttemptOutcome::NetworkError), DeliveryStep::Backoff(2000)));
    assert!(matches!(next_delivery_step(2, AttemptOutcome::NetworkError), DeliveryStep::Backoff(4000)));
    assert!(matches!(
        next_delivery_step(3, AttemptOutcome::NetworkError),
        DeliveryStep::GiveUp(DeliveryFailure::Network)
    ));
    assert!(matches!(next_delivery_step(3, AttemptOutcome::Response(429)), DeliveryStep::RateLimitedGiveUp));
    assert!(bucket_exhausted(Some("0")));
    assert!(!bucket_exhausted(Some("3")));
    assert!(!bucket_exhausted(Some("x")));
    assert!(!bucket_exhausted(None));
}

#[test]
fn webhook_request() {
    assert_eq!(
        webhook_post_url("https://discord.com/api/webhooks/1/a"),
        "https://discord.com/api/webhooks/1/a?with_components=true"
    );
    assert_eq!(
        webhook_post_url("https://discord.com/api/webhooks/1/a?wait=true"),
        "https://discord.com/api/webhooks/1/a?wait=true&with_components=true"
    );
    let payload = webhook_payload("Rustico", vec![]);
    assert_eq!(payload.to_json(), "{\"username\":\"Rustico\",\"flags\":32768,\"components\":[]}");
}

#[test]
fn avatar_encoding() {
    assert_eq!(avatar_data_uri(b"Man"), "data:image/png;base64,TWFu");
    assert_eq!(avatar_data_uri(b"Ma"), "data:image/png;base64,TWE=");
    assert_eq!(avatar_data_uri(b"M"), "data:image/png;base64,TQ==");
    assert_eq!(avatar_payload(b""), "{\"avatar\":\"data:image/png;base64,\"}");
}

#[test]
fn health_api_replies() {
    let mut state = AppState::default();
    state.add_seen_ann("a".to_string());
    state.increment_errors();
    let h = HealthResponse::from_state(&state, "0.4.0", 3600);
    let v: serde_json::Value = serde_json::from_str(&h.to_json()).unwrap();
    assert_eq!(v["status"], "🟢 healthy");
    assert_eq!(v["uptime_seconds"], 3600);
    assert_eq!(v["stats"]["seen_articles"], 1);
    assert_eq!(v["stats"]["errors"], 1);
    assert!(v["stats"]["last_check"].is_null());
    let m: serde_json::Value = serde_json::from_str(&metrics_reply(&state)).unwrap();
    assert_eq!(m["metrics"]["seen_articles"], 1);
    let s: serde_json::Value = serde_json::from_str(&stats_reply(&state)).unwrap();
    assert_eq!(s["initialized"], false);
    assert_eq!(s["cache"]["seen_episodes"], 0);
}
