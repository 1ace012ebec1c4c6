//! Bot configuration: its parts, its defaults, how it is read from
//! environment settings, and its validation.

use vstd::prelude::*;
use vstd::string::*;
use crate::text::{
    decimal, digits_value, is_prefix, is_ws, lemma_split_on_without_sep, lemma_trim_unchanged, parse_bool,
    parse_bool_spec, parse_u16, parse_u64, parse_unsigned, parse_usize, push_decimal, split_on,
    split_trimmed,
    starts_with, trim, trimmed_nonempty, unsigned_digits, views,
};

verus! {

broadcast use vstd::string::group_string_axioms;

/// The whole configuration.
#[derive(Debug)]
pub struct Config {
    pub discord: DiscordConfig,
    pub sources: SourcesConfig,
    pub scheduling: SchedulingConfig,
    pub api: ApiConfig,
    pub messages: MessagesConfig,
}

/// Where and how fast messages are delivered.
#[derive(Debug)]
pub struct DiscordConfig {
    pub webhook_urls: Vec<String>,
    pub delay_between_messages_ms: u64,
}

/// Which sources are watched.
#[derive(Debug)]
pub struct SourcesConfig {
    pub ann_rss_urls: Vec<String>,
    pub anilist_enabled: bool,
}

/// When checks run, and how much the first run sends.
#[derive(Debug)]
pub struct SchedulingConfig {
    pub check_interval_minutes: u64,
    pub demo_mode_item_limit: usize,
}

/// The health API.
#[derive(Debug)]
pub struct ApiConfig {
    pub enabled: bool,
    pub host: String,
    pub port: u16,
}

/// Message colours and layout.
#[derive(Debug)]
pub struct MessagesConfig {
    pub colors: ColorsConfig,
    pub formatting: FormattingConfig,
}

/// Accent colours.
#[derive(Debug)]
pub struct ColorsConfig {
    pub ann: u32,
    pub anilist: u32,
    pub error: u32,
    pub success: u32,
}

/// Layout of both kinds of message.
#[derive(Debug)]
pub struct FormattingConfig {
    pub ann: AnnFormattingConfig,
    pub anilist: AnilistFormattingConfig,
}

/// Layout of news article messages.
#[derive(Debug)]
pub struct AnnFormattingConfig {
    pub username: String,
    pub title_prefix: String,
    pub show_timestamp: bool,
    pub truncate_description: usize,
    pub show_source: bool,
    pub sections: Vec<SectionConfig>,
}

/// Layout of episode messages.
#[derive(Debug)]
pub struct AnilistFormattingConfig {
    pub username: String,
    pub title_prefix: String,
    pub show_timestamp: bool,
    pub truncate_description: usize,
    pub show_cover: bool,
    pub show_score: bool,
    pub sections: Vec<SectionConfig>,
}

/// One section of a message layout.
#[derive(Debug)]
pub struct SectionConfig {
    pub kind: String,
    pub format: Option<String>,
    pub url_field: Option<String>,
    pub divider: Option<bool>,
    pub spacing: Option<u8>,
}

/// The view of an optional string.
pub open spec fn opt_view(o: Option<String>) -> Option<Seq<char>> {
    match o {
        Some(s) => Some(s@),
        None => None,
    }
}

/// Whether `s` is a section of the given kind, format and URL field, with
/// no divider or spacing given.
pub open spec fn is_section(
    s: SectionConfig,
    kind: Seq<char>,
    format: Option<Seq<char>>,
    url_field: Option<Seq<char>>,
) -> bool {
    &&& s.kind@ == kind
    &&& opt_view(s.format) == format
    &&& opt_view(s.url_field) == url_field
    &&& s.divider is None
    &&& s.spacing is None
}

/// Default accent colour of news messages.
pub fn default_ann_color() -> (r: u32)
    ensures
        r == 0x1E90FF,
{
    0x1E90FF
}

/// Default accent colour of episode messages.
pub fn default_anilist_color() -> (r: u32)
    ensures
        r == 0x8A2BE2,
{
    0x8A2BE2
}

/// Default accent colour of error messages.
pub fn default_error_color() -> (r: u32)
    ensures
        r == 0xFF0000,
{
    0xFF0000
}

/// Default accent colour of success messages.
pub fn default_success_color() -> (r: u32)
    ensures
        r == 0x00FF00,
{
    0x00FF00
}

/// Default webhook user name.
pub fn default_username() -> (r: String)
    ensures
        r@ == "Rustico"@,
{
    "Rustico".to_string()
}

/// Default title prefix of news messages.
pub fn default_ann_prefix() -> (r: String)
    ensures
        r@ == "📰"@,
{
    "📰".to_string()
}

/// Default title prefix of episode messages.
pub fn default_anilist_prefix() -> (r: String)
    ensures
        r@ == "🎬"@,
{
    "🎬".to_string()
}

/// Default of the boolean switches.
pub fn default_true() -> (r: bool)
    ensures
        r,
{
    true
}

/// Default description length of news messages, in characters.
pub fn default_ann_truncate() -> (r: usize)
    ensures
        r == 400,
{
    400
}

/// Default description length of episode messages, in characters.
pub fn default_anilist_truncate() -> (r: usize)
    ensures
        r == 300,
{
    300
}

fn section(kind: &str, format: Option<&str>, url_field: Option<&str>) -> (r: SectionConfig)
    ensures
        is_section(
            r,
            kind@,
            match format {
                Some(f) => Some(f@),
                None => None,
            },
            match url_field {
                Some(u) => Some(u@),
                None => None,
            },
        ),
{
    SectionConfig {
        kind: kind.to_string(),
        format: match format {
            Some(f) => Some(f.to_string()),
            None => None,
        },
        url_field: match url_field {
            Some(u) => Some(u.to_string()),
            None => None,
        },
        divider: None,
        spacing: None,
    }
}

impl Default for ColorsConfig {
    /// The default colours.
    fn default() -> (r: Self)
        ensures
            r.ann == 0x1E90FF,
            r.anilist == 0x8A2BE2,
            r.error == 0xFF0000,
            r.success == 0x00FF00,
    {
        Self {
            ann: default_ann_color(),
            anilist: default_anilist_color(),
            error: default_error_color(),
            success: default_success_color(),
        }
    }
}

/// The default layout of news messages: title, link, separator,
/// description, then source and time.
pub open spec fn is_default_ann_layout(r: AnnFormattingConfig) -> bool {
    &&& r.username@ == "Rustico"@
    &&& r.title_prefix@ == "📰"@
    &&& r.show_timestamp
    &&& r.truncate_description == 400
    &&& r.show_source
    &&& r.sections@.len() == 5
    &&& is_section(r.sections@[0], "header"@, Some("# {title_prefix} {title}"@), None)
    &&& is_section(r.sections@[1], "link"@, Some("[Read full article]({link})"@), None)
    &&& is_section(r.sections@[2], "separator"@, None, None)
    &&& is_section(r.sections@[3], "description"@, None, None)
    &&& is_section(r.sections@[4], "metadata"@, Some("-# {source} • {timestamp}"@), None)
}

/// The default layout of episode messages: title and episode, link,
/// cover thumbnail, separator, description, studio and score, separator,
/// footer.
pub open spec fn is_default_anilist_layout(r: AnilistFormattingConfig) -> bool {
    &&& r.username@ == "Rustico"@
    &&& r.title_prefix@ == "🎬"@
    &&& r.show_timestamp
    &&& r.truncate_description == 300
    &&& r.show_cover
    &&& r.show_score
    &&& r.sections@.len() == 8
    &&& is_section(
        r.sections@[0],
        "header"@,
        Some("# {title_prefix} {title}\n**Episode {episode}** • aired {airing_time}"@),
        None,
    )
    &&& is_section(r.sections@[1], "link"@, Some("[View on AniList]({url})"@), None)
    &&& is_section(r.sections@[2], "thumbnail"@, None, Some("cover_url"@))
    &&& is_section(r.sections@[3], "separator"@, None, None)
    &&& is_section(r.sections@[4], "description"@, None, None)
    &&& is_section(
        r.sections@[5],
        "metadata"@,
        Some("**🎨 Studio**\n{studio}\n\n**⭐ Average Score**\n{score}/100"@),
        None,
    )
    &&& is_section(r.sections@[6], "separator"@, None, None)
    &&& is_section(r.sections@[7], "footer"@, Some("-# AniList • {score}/100"@), None)
}

impl Default for AnnFormattingConfig {
    /// The default layout of news messages.
    fn default() -> (r: Self)
        ensures
            is_default_ann_layout(r),
    {
        let mut sections: Vec<SectionConfig> = Vec::new();
        sections.push(section("header", Some("# {title_prefix} {title}"), None));
        sections.push(section("link", Some("[Read full article]({link})"), None));
        sections.push(section("separator", None, None));
        sections.push(section("description", None, None));
        sections.push(section("metadata", Some("-# {source} • {timestamp}"), None));
        Self {
            username: default_username(),
            title_prefix: default_ann_prefix(),
            show_timestamp: default_true(),
            truncate_description: default_ann_truncate(),
            show_source: default_true(),
            sections,
        }
    }
}

impl Default for AnilistFormattingConfig {
    /// The default layout of episode messages.
    fn default() -> (r: Self)
        ensures
            is_default_anilist_layout(r),
    {
        let mut sections: Vec<SectionConfig> = Vec::new();
        sections.push(
            section(
                "header",
                Some("# {title_prefix} {title}\n**Episode {episode}** • aired {airing_time}"),
                None,
            ),
        );
        sections.push(section("link", Some("[View on AniList]({url})"), None));
        sections.push(section("thumbnail", None, Some("cover_url")));
        sections.push(section("separator", None, None));
        sections.push(section("description", None, None));
        sections.push(
            section(
                "metadata",
                Some("**🎨 Studio**\n{studio}\n\n**⭐ Average Score**\n{score}/100"),
                None,
            ),
        );
        sections.push(section("separator", None, None));
        sections.push(section("footer", Some("-# AniList • {score}/100"), None));
        Self {
            username: default_username(),
            title_prefix: default_anilist_prefix(),
            show_timestamp: default_true(),
            truncate_description: default_anilist_truncate(),
            show_cover: default_true(),
            show_score: default_true(),
            sections,
        }
    }
}

impl Default for FormattingConfig {
    /// The default layouts.
    fn default() -> (r: Self)
        ensures
            is_default_ann_layout(r.ann),
            is_default_anilist_layout(r.anilist),
    {
        Self { ann: AnnFormattingConfig::default(), anilist: AnilistFormattingConfig::default() }
    }
}

impl Default for MessagesConfig {
    /// The default colours and layouts.
    fn default() -> (r: Self)
        ensures
            r.colors.ann == 0x1E90FF,
            r.colors.anilist == 0x8A2BE2,
            r.colors.error == 0xFF0000,
            r.colors.success == 0x00FF00,
            is_default_ann_layout(r.formatting.ann),
            is_default_anilist_layout(r.formatting.anilist),
    {
        Self { colors: ColorsConfig::default(), formatting: FormattingConfig::default() }
    }
}


// ---------------------------------------------------------------------
// Reading the configuration from environment settings
// ---------------------------------------------------------------------

/// The raw environment settings; `None` where a variable is not set.
#[derive(Debug)]
pub struct EnvSettings {
    pub discord_webhook_url: Option<String>,
    pub ann_rss_urls: Option<String>,
    pub check_interval_minutes: Option<String>,
    pub delay_between_messages_ms: Option<String>,
    pub demo_mode_item_limit: Option<String>,
    pub anilist_enabled: Option<String>,
    pub api_enabled: Option<String>,
    pub api_host: Option<String>,
    pub api_port: Option<String>,
}

/// Why a configuration was refused.
#[derive(Debug)]
pub enum ConfigError {
    MissingWebhookUrl,
    EmptyWebhookUrls,
    InvalidWebhookUrl(String),
    InvalidCheckInterval,
    ZeroCheckInterval,
    InvalidDelay,
    InvalidDemoLimit,
    InvalidAnilistEnabled,
    InvalidApiEnabled,
    InvalidApiPort,
    Messages(String),
    NoWebhookUrls,
    NoSources,
}

/// Every Discord webhook URL starts with this.
pub open spec fn webhook_prefix() -> Seq<char> {
    "https://discord.com/api/webhooks/"@
}

/// The feed watched when none is configured.
pub open spec fn default_feed() -> Seq<char> {
    "https://www.animenewsnetwork.com/all/rss.xml"@
}

/// The setting's text, or `default` when it is not set.
pub open spec fn setting_or(o: Option<String>, default: Seq<char>) -> Seq<char> {
    match o {
        Some(v) => v@,
        None => default,
    }
}

/// A comma-separated list: the items, trimmed, without the empty ones.
pub open spec fn comma_list(raw: Seq<char>) -> Seq<Seq<char>> {
    trimmed_nonempty(split_on(raw, ','))
}

/// The first URL, from index `i` on, that is not a Discord webhook URL.
pub open spec fn first_invalid_webhook(urls: Seq<Seq<char>>, i: int) -> Option<Seq<char>>
    decreases urls.len() - i,
{
    if i < 0 || i >= urls.len() {
        None
    } else if !is_prefix(webhook_prefix(), urls[i]) {
        Some(urls[i])
    } else {
        first_invalid_webhook(urls, i + 1)
    }
}

/// No URL from index `i` on is invalid exactly when all of them are
/// Discord webhook URLs.
pub proof fn lemma_first_invalid_none(urls: Seq<Seq<char>>, i: int)
    requires
        0 <= i,
    ensures
        first_invalid_webhook(urls, i) is None <==> forall|j: int|
            i <= j < urls.len() ==> is_prefix(webhook_prefix(), #[trigger] urls[j]),
    decreases urls.len() - i,
{
    if i < urls.len() {
        lemma_first_invalid_none(urls, i + 1);
    }
}

/// What reading the settings comes to.
pub enum SettingsOutcome {
    MissingWebhookUrl,
    EmptyWebhookUrls,
    InvalidWebhookUrl(Seq<char>),
    InvalidCheckInterval,
    ZeroCheckInterval,
    InvalidDelay,
    InvalidDemoLimit,
    InvalidAnilistEnabled,
    InvalidApiEnabled,
    InvalidApiPort,
    Messages,
    /// Reported by `Config::validate` only: no webhook URL.
    NoWebhookUrls,
    /// Reported by `Config::validate` only: no source enabled.
    NoSources,
    Accepted,
}

/// The outcome of reading `s`, checked in this order: webhook URLs, check
/// interval, delay, demo limit, AniList switch, API switch, API port, and
/// last the messages configuration.
pub open spec fn settings_outcome(s: EnvSettings, messages_loaded: bool) -> SettingsOutcome {
    let hooks = comma_list(setting_or(s.discord_webhook_url, Seq::empty()));
    let interval = parse_unsigned(setting_or(s.check_interval_minutes, "15"@), u64::MAX as nat);
    if s.discord_webhook_url is None {
        SettingsOutcome::MissingWebhookUrl
    } else if hooks.len() == 0 {
        SettingsOutcome::EmptyWebhookUrls
    } else if first_invalid_webhook(hooks, 0) is Some {
        SettingsOutcome::InvalidWebhookUrl(first_invalid_webhook(hooks, 0)->0)
    } else if interval is None {
        SettingsOutcome::InvalidCheckInterval
    } else if interval == Some(0nat) {
        SettingsOutcome::ZeroCheckInterval
    } else if parse_unsigned(setting_or(s.delay_between_messages_ms, "800"@), u64::MAX as nat)
        is None {
        SettingsOutcome::InvalidDelay
    } else if parse_unsigned(setting_or(s.demo_mode_item_limit, "3"@), usize::MAX as nat)
        is None {
        SettingsOutcome::InvalidDemoLimit
    } else if parse_bool_spec(setting_or(s.anilist_enabled, "true"@)) is None {
        SettingsOutcome::InvalidAnilistEnabled
    } else if parse_bool_spec(setting_or(s.api_enabled, "true"@)) is None {
        SettingsOutcome::InvalidApiEnabled
    } else if parse_unsigned(setting_or(s.api_port, "3000"@), u16::MAX as nat) is None {
        SettingsOutcome::InvalidApiPort
    } else if !messages_loaded {
        SettingsOutcome::Messages
    } else {
        SettingsOutcome::Accepted
    }
}

/// The value of a short decimal text with no sign.
proof fn lemma_parse_small(t: Seq<char>, v: nat, max: nat)
    requires
        1 <= t.len() <= 4,
        forall|i: int| 0 <= i < t.len() ==> '0' <= #[trigger] t[i] <= '9',
        v == digits_value(t),
        v <= max,
    ensures
        parse_unsigned(t, max) == Some(v),
{
    assert(unsigned_digits(t) == t);
}

/// With only the webhook URLs set, every other setting takes its
/// documented default (one feed, the Anime News Network one; a check every
/// 15 minutes; 800 ms between messages; 3 demo items; AniList and the API
/// on, the API at 127.0.0.1:3000), and the settings are accepted exactly
/// when the webhook URLs are present, not empty and all Discord URLs, and
/// the messages configuration loaded.
pub proof fn lemma_default_settings(s: EnvSettings, messages_loaded: bool)
    requires
        s.ann_rss_urls is None,
        s.check_interval_minutes is None,
        s.delay_between_messages_ms is None,
        s.demo_mode_item_limit is None,
        s.anilist_enabled is None,
        s.api_enabled is None,
        s.api_host is None,
        s.api_port is None,
    ensures
        comma_list(setting_or(s.ann_rss_urls, default_feed())) == seq![default_feed()],
        parse_unsigned(setting_or(s.check_interval_minutes, "15"@), u64::MAX as nat) == Some(
            15nat,
        ),
        parse_unsigned(setting_or(s.delay_between_messages_ms, "800"@), u64::MAX as nat)
            == Some(800nat),
        parse_unsigned(setting_or(s.demo_mode_item_limit, "3"@), usize::MAX as nat) == Some(3nat),
        parse_bool_spec(setting_or(s.anilist_enabled, "true"@)) == Some(true),
        parse_bool_spec(setting_or(s.api_enabled, "true"@)) == Some(true),
        setting_or(s.api_host, "127.0.0.1"@) == "127.0.0.1"@,
        parse_unsigned(setting_or(s.api_port, "3000"@), u16::MAX as nat) == Some(3000nat),
        settings_outcome(s, messages_loaded) is Accepted <==> ({
            let hooks = comma_list(setting_or(s.discord_webhook_url, Seq::empty()));
            &&& s.discord_webhook_url is Some
            &&& hooks.len() > 0
            &&& first_invalid_webhook(hooks, 0) is None
            &&& messages_loaded
        }),
{
    reveal_strlit("15");
    reveal_strlit("800");
    reveal_strlit("3");
    reveal_strlit("3000");
    reveal_strlit("https://www.animenewsnetwork.com/all/rss.xml");
    reveal_with_fuel(digits_value, 5);
    lemma_parse_small("15"@, 15, u64::MAX as nat);
    lemma_parse_small("800"@, 800, u64::MAX as nat);
    lemma_parse_small("3"@, 3, usize::MAX as nat);
    lemma_parse_small("3000"@, 3000, u16::MAX as nat);
    let f = default_feed();
    assert(!f.contains(',')) by {
        assert(forall|i: int| 0 <= i < f.len() ==> f[i] != ',');
    }
    lemma_split_on_without_sep(f, ',');
    assert(!is_ws(f[0]) && !is_ws(f.last()));
    lemma_trim_unchanged(f);
    assert(trimmed_nonempty(seq![f]) == seq![f]) by {
        reveal_with_fuel(trimmed_nonempty, 2);
        assert(seq![f].drop_last() =~= Seq::<Seq<char>>::empty());
        assert(seq![f].last() == f);
        assert(Seq::<Seq<char>>::empty().push(f) =~= seq![f]);
    }
}

/// The outcome that a result reports.
pub open spec fn outcome_of(r: Result<Config, ConfigError>) -> SettingsOutcome {
    match r {
        Ok(_) => SettingsOutcome::Accepted,
        Err(ConfigError::MissingWebhookUrl) => SettingsOutcome::MissingWebhookUrl,
        Err(ConfigError::EmptyWebhookUrls) => SettingsOutcome::EmptyWebhookUrls,
        Err(ConfigError::InvalidWebhookUrl(u)) => SettingsOutcome::InvalidWebhookUrl(u@),
        Err(ConfigError::InvalidCheckInterval) => SettingsOutcome::InvalidCheckInterval,
        Err(ConfigError::ZeroCheckInterval) => SettingsOutcome::ZeroCheckInterval,
        Err(ConfigError::InvalidDelay) => SettingsOutcome::InvalidDelay,
        Err(ConfigError::InvalidDemoLimit) => SettingsOutcome::InvalidDemoLimit,
        Err(ConfigError::InvalidAnilistEnabled) => SettingsOutcome::InvalidAnilistEnabled,
        Err(ConfigError::InvalidApiEnabled) => SettingsOutcome::InvalidApiEnabled,
        Err(ConfigError::InvalidApiPort) => SettingsOutcome::InvalidApiPort,
        Err(ConfigError::Messages(_)) => SettingsOutcome::Messages,
        Err(ConfigError::NoWebhookUrls) => SettingsOutcome::NoWebhookUrls,
        Err(ConfigError::NoSources) => SettingsOutcome::NoSources,
    }
}

/// The value of an optional setting, or its default.
fn setting_text(o: &Option<String>, default: &str) -> (r: String)
    ensures
        r@ == setting_or(*o, default@),
{
    match o {
        Some(v) => v.clone(),
        None => default.to_string(),
    }
}

impl Config {
    /// Builds the configuration from the environment settings and the
    /// messages configuration (or the reason it could not be loaded).
    pub fn from_settings(s: &EnvSettings, messages: Result<MessagesConfig, String>) -> (r: Result<
        Config,
        ConfigError,
    >)
        ensures
            outcome_of(r) == settings_outcome(*s, messages is Ok),
            r is Ok <==> settings_outcome(*s, messages is Ok) is Accepted,
            r matches Ok(c) ==> {
                &&& c.discord.webhook_urls@.len() > 0
                &&& forall|i: int|
                    0 <= i < c.discord.webhook_urls@.len() ==> is_prefix(
                        webhook_prefix(),
                        #[trigger] c.discord.webhook_urls@[i]@,
                    )
                &&& c.scheduling.check_interval_minutes >= 1
            },
            r matches Ok(c) ==> {
                &&& views(c.discord.webhook_urls@) == comma_list(
                    setting_or(s.discord_webhook_url, Seq::empty()),
                )
                &&& Some(c.discord.delay_between_messages_ms as nat) == parse_unsigned(
                    setting_or(s.delay_between_messages_ms, "800"@),
                    u64::MAX as nat,
                )
                &&& views(c.sources.ann_rss_urls@) == comma_list(
                    setting_or(s.ann_rss_urls, default_feed()),
                )
                &&& Some(c.sources.anilist_enabled) == parse_bool_spec(
                    setting_or(s.anilist_enabled, "true"@),
                )
                &&& Some(c.scheduling.check_interval_minutes as nat) == parse_unsigned(
                    setting_or(s.check_interval_minutes, "15"@),
                    u64::MAX as nat,
                )
                &&& Some(c.scheduling.demo_mode_item_limit as nat) == parse_unsigned(
                    setting_or(s.demo_mode_item_limit, "3"@),
                    usize::MAX as nat,
                )
                &&& Some(c.api.enabled) == parse_bool_spec(setting_or(s.api_enabled, "true"@))
                &&& c.api.host@ == setting_or(s.api_host, "127.0.0.1"@)
                &&& Some(c.api.port as nat) == parse_unsigned(
                    setting_or(s.api_port, "3000"@),
                    u16::MAX as nat,
                )
                &&& messages matches Ok(m) && c.messages == m
            },
    {
        let raw_hooks = match &s.discord_webhook_url {
            Some(v) => v,
            None => {
                return Err(ConfigError::MissingWebhookUrl);
            },
        };
        let webhook_urls = split_trimmed(raw_hooks.as_str(), ',');
        if webhook_urls.len() == 0 {
            return Err(ConfigError::EmptyWebhookUrls);
        }
        let ghost hooks = views(webhook_urls@);
        let mut i: usize = 0;
        while i < webhook_urls.len()
            invariant
                i <= webhook_urls@.len(),
                hooks == views(webhook_urls@),
                hooks == comma_list(setting_or(s.discord_webhook_url, Seq::empty())),
                s.discord_webhook_url is Some,
                hooks.len() > 0,
                first_invalid_webhook(hooks, 0) == first_invalid_webhook(hooks, i as int),
            decreases webhook_urls@.len() - i,
        {
            assert(hooks[i as int] == webhook_urls@[i as int]@);
            if !starts_with(webhook_urls[i].as_str(), "https://discord.com/api/webhooks/") {
                return Err(ConfigError::InvalidWebhookUrl(webhook_urls[i].clone()));
            }
            i = i + 1;
        }
        proof {
            lemma_first_invalid_none(hooks, 0);
            assert forall|j: int| 0 <= j < webhook_urls@.len() implies is_prefix(
                webhook_prefix(),
                #[trigger] webhook_urls@[j]@,
            ) by {
                assert(hooks[j] == webhook_urls@[j]@);
            }
        }
        let feeds_raw = setting_text(
            &s.ann_rss_urls,
            "https://www.animenewsnetwork.com/all/rss.xml",
        );
        let ann_rss_urls = split_trimmed(feeds_raw.as_str(), ',');
        let check_interval_minutes = match parse_u64(
            setting_text(&s.check_interval_minutes, "15").as_str(),
        ) {
            Some(v) => v,
            None => {
                return Err(ConfigError::InvalidCheckInterval);
            },
        };
        if check_interval_minutes == 0 {
            return Err(ConfigError::ZeroCheckInterval);
        }
        let delay_between_messages_ms = match parse_u64(
            setting_text(&s.delay_between_messages_ms, "800").as_str(),
        ) {
            Some(v) => v,
            None => {
                return Err(ConfigError::InvalidDelay);
            },
        };
        let demo_mode_item_limit = match parse_usize(
            setting_text(&s.demo_mode_item_limit, "3").as_str(),
        ) {
            Some(v) => v,
            None => {
                return Err(ConfigError::InvalidDemoLimit);
            },
        };
        let anilist_enabled = match parse_bool(setting_text(&s.anilist_enabled, "true").as_str()) {
            Some(v) => v,
            None => {
                return Err(ConfigError::InvalidAnilistEnabled);
            },
        };
        let api_enabled = match parse_bool(setting_text(&s.api_enabled, "true").as_str()) {
            Some(v) => v,
            None => {
                return Err(ConfigError::InvalidApiEnabled);
            },
        };
        let api_host = setting_text(&s.api_host, "127.0.0.1");
        let api_port = match parse_u16(setting_text(&s.api_port, "3000").as_str()) {
            Some(v) => v,
            None => {
                return Err(ConfigError::InvalidApiPort);
            },
        };
        let messages = match messages {
            Ok(m) => m,
            Err(e) => {
                return Err(ConfigError::Messages(e));
            },
        };
        Ok(
            Config {
                discord: DiscordConfig { webhook_urls, delay_between_messages_ms },
                sources: SourcesConfig { ann_rss_urls, anilist_enabled },
                scheduling: SchedulingConfig { check_interval_minutes, demo_mode_item_limit },
                api: ApiConfig { enabled: api_enabled, host: api_host, port: api_port },
                messages,
            },
        )
    }

    /// Checks that messages have somewhere to go and something to come from.
    pub fn validate(&self) -> (r: Result<(), ConfigError>)
        ensures
            self.discord.webhook_urls@.len() == 0 <==> r matches Err(ConfigError::NoWebhookUrls),
            (self.discord.webhook_urls@.len() > 0 && self.sources.ann_rss_urls@.len() == 0
                && !self.sources.anilist_enabled) <==> r matches Err(ConfigError::NoSources),
            r is Ok <==> (self.discord.webhook_urls@.len() > 0 && (self.sources.ann_rss_urls@.len()
                > 0 || self.sources.anilist_enabled)),
    {
        if self.discord.webhook_urls.len() == 0 {
            return Err(ConfigError::NoWebhookUrls);
        }
        if self.sources.ann_rss_urls.len() == 0 && !self.sources.anilist_enabled {
            return Err(ConfigError::NoSources);
        }
        Ok(())
    }
}

/// Where the messages configuration named `path` is read from: the path
/// itself when it is absolute or explicitly relative, else under `config/`.
pub open spec fn messages_config_path_spec(path: Seq<char>) -> Seq<char> {
    if is_prefix("/"@, path) || is_prefix("./"@, path) || is_prefix("../"@, path) {
        path
    } else {
        "config/"@ + path
    }
}

/// The file that holds the messages configuration named `path`.
pub fn messages_config_path(path: &str) -> (r: String)
    ensures
        r@ == messages_config_path_spec(path@),
{
    if starts_with(path, "/") || starts_with(path, "./") || starts_with(path, "../") {
        path.to_string()
    } else {
        let mut r = "config/".to_string();
        r.append(path);
        r
    }
}

/// The cron schedule of the checks: at second 0 of every
/// `interval_minutes`-th minute.
pub open spec fn cron_spec(interval_minutes: nat) -> Seq<char> {
    "0 */"@ + decimal(interval_minutes) + " * * * *"@
}

/// The cron expression (seconds first) that runs a check every
/// `interval_minutes` minutes.
pub fn cron_expression(interval_minutes: u64) -> (r: String)
    ensures
        r@ == cron_spec(interval_minutes as nat),
{
    let mut r = "0 */".to_string();
    push_decimal(&mut r, interval_minutes);
    r.append(" * * * *");
    r
}

} // verus!
