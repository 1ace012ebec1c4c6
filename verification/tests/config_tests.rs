use rustico::config::{
    messages_config_path, AnilistFormattingConfig, AnnFormattingConfig, ApiConfig, ColorsConfig,
    Config, ConfigError, DiscordConfig, EnvSettings, MessagesConfig, SchedulingConfig,
    SourcesConfig,
};

fn base_config(webhooks: Vec<String>, feeds: Vec<String>, anilist: bool) -> Config {
    Config {
        discord: DiscordConfig {
            webhook_urls: webhooks,
            delay_between_messages_ms: 800,
        },
        sources: SourcesConfig {
            ann_rss_urls: feeds,
            anilist_enabled: anilist,
        },
        scheduling: SchedulingConfig {
            check_interval_minutes: 15,
            demo_mode_item_limit: 3,
        },
        api: ApiConfig {
            enabled: true,
            host: "127.0.0.1".to_string(),
            port: 3000,
        },
        messages: MessagesConfig::default(),
    }
}

#[test]
fn test_config_validation_empty_webhooks() {
    let config = Config {
        discord: DiscordConfig {
            webhook_urls: vec![],
            delay_between_messages_ms: 800,
        },
        sources: SourcesConfig {
            ann_rss_urls: vec![],
            anilist_enabled: false,
        },
        scheduling: SchedulingConfig {
            check_interval_minutes: 15,
            demo_mode_item_limit: 3,
        },
        api: ApiConfig {
            enabled: true,
            host: "127.0.0.1".to_string(),
            port: 3000,
        },
        messages: MessagesConfig::default(),
    };

    assert!(config.validate().is_err());
}

#[test]
fn test_config_validation_no_sources() {
    let config = Config {
        discord: DiscordConfig {
            webhook_urls: vec!["https://discord.com/api/webhooks/123/abc".to_string()],
            delay_between_messages_ms: 800,
        },
        sources: SourcesConfig {
            ann_rss_urls: vec![],
            anilist_enabled: false,
        },
        scheduling: SchedulingConfig {
            check_interval_minutes: 15,
            demo_mode_item_limit: 3,
        },
        api: ApiConfig {
            enabled: true,
            host: "127.0.0.1".to_string(),
            port: 3000,
        },
        messages: MessagesConfig::default(),
    };

    assert!(config.validate().is_err());
}

#[test]
fn test_config_validation_valid() {
    let config = Config {
        discord: DiscordConfig {
            webhook_urls: vec!["https://discord.com/api/webhooks/123/abc".to_string()],
            delay_between_messages_ms: 800,
        },
        sources: SourcesConfig {
            ann_rss_urls: vec!["https://www.animenewsnetwork.com/all/rss.xml".to_string()],
            anilist_enabled: true,
        },
        scheduling: SchedulingConfig {
            check_interval_minutes: 15,
            demo_mode_item_limit: 3,
        },
        api: ApiConfig {
            enabled: true,
            host: "127.0.0.1".to_string(),
            port: 3000,
        },
        messages: MessagesConfig::default(),
    };

    assert!(config.validate().is_ok());
}

#[test]
fn validate_reports_which_rule_failed() {
    let no_hooks = base_config(vec![], vec!["f".to_string()], true);
    assert!(matches!(no_hooks.validate(), Err(ConfigError::NoWebhookUrls)));
    let no_sources = base_config(vec!["w".to_string()], vec![], false);
    assert!(matches!(no_sources.validate(), Err(ConfigError::NoSources)));
    let anilist_only = base_config(vec!["w".to_string()], vec![], true);
    assert!(anilist_only.validate().is_ok());
}

fn settings(hooks: Option<&str>) -> EnvSettings {
    EnvSettings {
        discord_webhook_url: hooks.map(|s| s.to_string()),
        ann_rss_urls: None,
        check_interval_minutes: None,
        delay_between_messages_ms: None,
        demo_mode_item_limit: None,
        anilist_enabled: None,
        api_enabled: None,
        api_host: None,
        api_port: None,
    }
}

#[test]
fn from_settings_defaults() {
    let s = settings(Some(" https://discord.com/api/webhooks/1/a , https://discord.com/api/webhooks/2/b,"));
    let c = Config::from_settings(&s, Ok(MessagesConfig::default())).unwrap();
    assert_eq!(
        c.discord.webhook_urls,
        vec![
            "https://discord.com/api/webhooks/1/a".to_string(),
            "https://discord.com/api/webhooks/2/b".to_string()
        ]
    );
    assert_eq!(c.discord.delay_between_messages_ms, 800);
    assert_eq!(c.sources.ann_rss_urls, vec!["https://www.animenewsnetwork.com/all/rss.xml".to_string()]);
    assert!(c.sources.anilist_enabled);
    assert_eq!(c.scheduling.check_interval_minutes, 15);
    assert_eq!(c.scheduling.demo_mode_item_limit, 3);
    assert!(c.api.enabled);
    assert_eq!(c.api.host, "127.0.0.1");
    assert_eq!(c.api.port, 3000);
}

#[test]
fn from_settings_errors() {
    let ok = || Ok(MessagesConfig::default());
    assert!(matches!(Config::from_settings(&settings(None), ok()), Err(ConfigError::MissingWebhookUrl)));
    assert!(matches!(Config::from_settings(&settings(Some(" , ")), ok()), Err(ConfigError::EmptyWebhookUrls)));
    match Config::from_settings(&settings(Some("https://discord.com/api/webhooks/1/a,http://evil")), ok()) {
        Err(ConfigError::InvalidWebhookUrl(u)) => assert_eq!(u, "http://evil"),
        _ => panic!("expected an invalid webhook URL"),
    }
    let hook = Some("https://discord.com/api/webhooks/1/a");
    let mut s = settings(hook);
    s.check_interval_minutes = Some("abc".to_string());
    assert!(matches!(Config::from_settings(&s, ok()), Err(ConfigError::InvalidCheckInterval)));
    s.check_interval_minutes = Some("0".to_string());
    assert!(matches!(Config::from_settings(&s, ok()), Err(ConfigError::ZeroCheckInterval)));
    let mut s = settings(hook);
    s.delay_between_messages_ms = Some("-5".to_string());
    assert!(matches!(Config::from_settings(&s, ok()), Err(ConfigError::InvalidDelay)));
    let mut s = settings(hook);
    s.demo_mode_item_limit = Some("x".to_string());
    assert!(matches!(Config::from_settings(&s, ok()), Err(ConfigError::InvalidDemoLimit)));
    let mut s = settings(hook);
    s.anilist_enabled = Some("yes".to_string());
    assert!(matches!(Config::from_settings(&s, ok()), Err(ConfigError::InvalidAnilistEnabled)));
    let mut s = settings(hook);
    s.api_enabled = Some("1".to_string());
    assert!(matches!(Config::from_settings(&s, ok()), Err(ConfigError::InvalidApiEnabled)));
    let mut s = settings(hook);
    s.api_port = Some("70000".to_string());
    assert!(matches!(Config::from_settings(&s, ok()), Err(ConfigError::InvalidApiPort)));
    let s = settings(hook);
    assert!(matches!(
        Config::from_settings(&s, Err("missing file".to_string())),
        Err(ConfigError::Messages(_))
    ));
}

#[test]
fn default_layouts_and_colors() {
    let colors = ColorsConfig::default();
    assert_eq!((colors.ann, colors.anilist, colors.error, colors.success), (0x1E90FF, 0x8A2BE2, 0xFF0000, 0x00FF00));
    let ann = AnnFormattingConfig::default();
    assert_eq!(ann.sections.len(), 5);
    assert_eq!(ann.sections[0].format.as_deref(), Some("# {title_prefix} {title}"));
    assert_eq!(ann.truncate_description, 400);
    let anilist = AnilistFormattingConfig::default();
    assert_eq!(anilist.sections.len(), 8);
    assert_eq!(anilist.sections[2].url_field.as_deref(), Some("cover_url"));
    assert_eq!(anilist.truncate_description, 300);
}

#[test]
fn messages_path_rules() {
    assert_eq!(messages_config_path("messages.yaml"), "config/messages.yaml");
    assert_eq!(messages_config_path("./m.yaml"), "./m.yaml");
    assert_eq!(messages_config_path("/etc/m.yaml"), "/etc/m.yaml");
    assert_eq!(messages_config_path("../m.yaml"), "../m.yaml");
}

#[test]
fn cron_expression_every_interval() {
    assert_eq!(rustico::config::cron_expression(15), "0 */15 * * * *");
    assert_eq!(rustico::config::cron_expression(1), "0 */1 * * * *");
}
