//! Anime News Network articles: the feed, which articles are new, and the
//! messages announcing them.

use vstd::prelude::*;
use vstd::string::*;
use crate::clock::{is_rfc3339_utc, now_unix_seconds};
use crate::config::{AnnFormattingConfig, Config};
use crate::layout::{layout, layout_sections, Block, LayoutInput};
use crate::models::Component;
use crate::sources::{is_message, message_components, no_description, relative_time, relative_time_tag};
use crate::state::{
    dedup_batch, lemma_dedup_announces_once, lemma_dedup_repeat_announces_nothing, lemma_dedup_tail, no_duplicates, remembered, AppState,
    MAX_SEEN_ANN,
};
use crate::template::TemplateVars;
use crate::text::{lemma_truncated_bounds, truncate_chars, truncated, views};
use crate::utils::{clean_html, cleaned};

verus! {

broadcast use vstd::string::group_string_axioms;

/// Most feed entries looked at per check.
pub const MAX_FEED_ITEMS: usize = 20;

/// One entry of an RSS feed, as far as the bot reads it.
#[derive(Debug)]
pub struct FeedItem {
    pub title: Option<String>,
    pub link: Option<String>,
    pub description: Option<String>,
    /// The value of the entry's `guid`.
    pub guid: Option<String>,
}

/// The view of a feed entry.
pub struct FeedItemView {
    pub title: Option<Seq<char>>,
    pub link: Option<Seq<char>>,
    pub description: Option<Seq<char>>,
    pub guid: Option<Seq<char>>,
}

/// The view of an optional string.
pub open spec fn opt_view(o: Option<String>) -> Option<Seq<char>> {
    match o {
        Some(s) => Some(s@),
        None => None,
    }
}

/// The view of a feed entry.
pub open spec fn item_view(it: FeedItem) -> FeedItemView {
    FeedItemView {
        title: opt_view(it.title),
        link: opt_view(it.link),
        description: opt_view(it.description),
        guid: opt_view(it.guid),
    }
}

/// The entries of the RSS channel in `feed`, as the `rss` crate reads
/// them, or `None` when it refuses the document.
pub uninterp spec fn rss_channel_items(feed: Seq<u8>) -> Option<Seq<FeedItemView>>;

#[verifier::external_type_specification]
#[verifier::external_body]
pub struct ExRssError(rss::Error);

/// Reads an RSS channel with `rss::Channel::read_from` and keeps, of each
/// item, its title, link, description and guid value. The contract names
/// the result; what the XML reader accepts is not restated.
#[verifier::external_body]
fn read_rss_items(feed: &[u8]) -> (r: Result<Vec<FeedItem>, rss::Error>)
    ensures
        match r {
            Ok(items) => rss_channel_items(feed@) == Some(
                items@.map_values(|it: FeedItem| item_view(it)),
            ),
            Err(_) => rss_channel_items(feed@) is None,
        },
{
    let channel = rss::Channel::read_from(feed)?;
    Ok(channel.items().iter().map(|item| FeedItem {
        title: item.title().map(String::from),
        link: item.link().map(String::from),
        description: item.description().map(String::from),
        guid: item.guid().map(|g| g.value().to_string()),
    }).collect())
}

/// The text of an `rss` error (its `Display`). Nothing is stated of it.
#[verifier::external_body]
fn rss_error_text(e: &rss::Error) -> (r: String) {
    e.to_string()
}

/// Why a feed could not be read.
#[derive(Debug)]
pub enum FeedError {
    /// The document is not a readable RSS channel; the reader's message.
    Unreadable(String),
}

/// Reads the entries of an RSS document.
pub fn parse_feed(feed: &[u8]) -> (r: Result<Vec<FeedItem>, FeedError>)
    ensures
        match r {
            Ok(items) => rss_channel_items(feed@) == Some(
                items@.map_values(|it: FeedItem| item_view(it)),
            ),
            Err(_) => rss_channel_items(feed@) is None,
        },
{
    match read_rss_items(feed) {
        Ok(items) => Ok(items),
        Err(e) => Err(FeedError::Unreadable(rss_error_text(&e))),
    }
}

/// A news feed to watch.
#[derive(Debug)]
pub struct AnnSource {
    pub rss_url: String,
}

/// A message announcing one article.
#[derive(Debug)]
pub struct ArticleNotification {
    pub components: Vec<Component>,
    pub title: String,
}

/// What an article message shows.
pub struct ArticleModel {
    pub title: Seq<char>,
    pub blocks: Seq<Block>,
}

/// How an entry is told apart from others: its guid, else its link, else
/// nothing (an empty identifier).
pub open spec fn item_guid(it: FeedItem) -> Seq<char> {
    match it.guid {
        Some(g) => g@,
        None => match it.link {
            Some(l) => l@,
            None => Seq::empty(),
        },
    }
}

/// The entry's title, or `Untitled`.
pub open spec fn item_title(it: FeedItem) -> Seq<char> {
    match it.title {
        Some(t) => t@,
        None => "Untitled"@,
    }
}

/// The entry's link, or nothing.
pub open spec fn item_link(it: FeedItem) -> Seq<char> {
    match it.link {
        Some(l) => l@,
        None => Seq::empty(),
    }
}

/// The description shown: the cleaned entry description cut to `n`
/// characters, or the placeholder when it cleans to nothing.
pub open spec fn article_description(it: FeedItem, n: nat) -> Seq<char> {
    let c = cleaned(
        match it.description {
            Some(d) => d@,
            None => Seq::empty(),
        },
    );
    if c.len() == 0 {
        no_description()
    } else {
        truncated(c, n)
    }
}

/// The values an article's templates may use.
pub open spec fn article_vars(it: FeedItem, fmt: AnnFormattingConfig, now: int) -> Seq<
    (Seq<char>, Seq<char>),
> {
    seq![
        ("title_prefix"@, fmt.title_prefix@),
        ("title"@, item_title(it)),
        ("link"@, item_link(it)),
        ("description"@, article_description(it, fmt.truncate_description as nat)),
        (
            "source"@,
            if fmt.show_source {
                "Anime News Network"@
            } else {
                Seq::empty()
            },
        ),
        (
            "timestamp"@,
            if fmt.show_timestamp {
                relative_time_tag(now)
            } else {
                Seq::empty()
            },
        ),
    ]
}

/// What the message for entry `it` shows, at Unix time `now`.
pub open spec fn article_model(it: FeedItem, fmt: AnnFormattingConfig, now: int) -> ArticleModel {
    ArticleModel {
        title: item_title(it),
        blocks: layout(
            fmt.sections@,
            LayoutInput {
                vars: article_vars(it, fmt, now),
                description: article_description(it, fmt.truncate_description as nat),
                link_key: "link"@,
                thumbnails: true,
            },
        ),
    }
}

/// Whether notification `n` is the message with accent colour `color`
/// showing `m`.
pub open spec fn article_shows(n: ArticleNotification, m: ArticleModel, color: u32) -> bool {
    n.title@ == m.title && is_message(n.components@, color, m.blocks)
}

/// How many entries a check looks at: at most `MAX_FEED_ITEMS`, and on the
/// first run at most `demo_limit`.
pub open spec fn article_limit(len: nat, first_run: bool, demo_limit: nat) -> nat {
    let capped = if len < MAX_FEED_ITEMS {
        len
    } else {
        MAX_FEED_ITEMS as nat
    };
    if first_run && demo_limit < capped {
        demo_limit
    } else {
        capped
    }
}

/// The remembered identifiers and the messages after the first `n`
/// entries: an entry without identifier, or already seen, is skipped;
/// any other is remembered and announced.
pub open spec fn article_batch(
    seen: Seq<Seq<char>>,
    items: Seq<FeedItem>,
    n: nat,
    fmt: AnnFormattingConfig,
    now: int,
) -> (Seq<Seq<char>>, Seq<ArticleModel>)
    decreases n,
{
    if n == 0 || n > items.len() {
        (seen, Seq::empty())
    } else {
        let prev = article_batch(seen, items, (n - 1) as nat, fmt, now);
        let it = items[n - 1];
        let g = item_guid(it);
        if g.len() == 0 || prev.0.contains(g) {
            prev
        } else {
            (remembered(prev.0, g, MAX_SEEN_ANN as nat), prev.1.push(article_model(it, fmt, now)))
        }
    }
}

/// Whether the check that started with the remembered identifiers `seen`
/// (after a first check or not) ended with `seen_after` and produced
/// `notes`, at Unix time `now`.
pub open spec fn articles_formatted(
    seen: Seq<Seq<char>>,
    initialized: bool,
    config: Config,
    items: Seq<FeedItem>,
    now: int,
    seen_after: Seq<Seq<char>>,
    notes: Seq<ArticleNotification>,
) -> bool {
    let lim = article_limit(items.len(), !initialized, config.scheduling.demo_mode_item_limit as nat);
    let batch = article_batch(seen, items, lim, config.messages.formatting.ann, now);
    &&& seen_after == batch.0
    &&& notes.len() == batch.1.len()
    &&& forall|i: int|
        0 <= i < notes.len() ==> article_shows(
            #[trigger] notes[i],
            batch.1[i],
            config.messages.colors.ann,
        )
}

/// Builds the message for entry `it` at Unix time `now`.
pub fn build_article(it: &FeedItem, fmt: &AnnFormattingConfig, color: u32, now: i64) -> (r:
    ArticleNotification)
    ensures
        article_shows(r, article_model(*it, *fmt, now as int), color),
{
    let title = match &it.title {
        Some(t) => t.clone(),
        None => "Untitled".to_string(),
    };
    let link = match &it.link {
        Some(l) => l.clone(),
        None => String::new(),
    };
    let raw_desc = match &it.description {
        Some(d) => d.as_str(),
        None => "",
    };
    proof {
        reveal_strlit("");
    }
    let cleaned_desc = clean_html(raw_desc);
    let description = if cleaned_desc.as_str().is_empty() {
        "*No description available.*".to_string()
    } else {
        truncate_chars(cleaned_desc.as_str(), fmt.truncate_description)
    };
    assert(description@ == article_description(*it, fmt.truncate_description as nat));
    let mut vars = TemplateVars::new();
    vars.insert("title_prefix", fmt.title_prefix.clone());
    vars.insert("title", title.clone());
    vars.insert("link", link);
    vars.insert("description", description.clone());
    vars.insert(
        "source",
        if fmt.show_source {
            "Anime News Network".to_string()
        } else {
            String::new()
        },
    );
    vars.insert(
        "timestamp",
        if fmt.show_timestamp {
            relative_time(now)
        } else {
            String::new()
        },
    );
    assert(vars.pairs() =~= article_vars(*it, *fmt, now as int));
    let inner = layout_sections(&fmt.sections, &vars, description.as_str(), "link", true);
    let components = message_components(color, inner);
    ArticleNotification { components, title }
}

/// Picks the new entries among the first ones of a feed, remembers them,
/// and builds their messages, at Unix time `now`.
pub fn format_articles(state: &mut AppState, config: &Config, items: &Vec<FeedItem>, now: i64) -> (r:
    Vec<ArticleNotification>)
    requires
        no_duplicates(views(old(state).seen_ann@)),
    ensures
        no_duplicates(views(final(state).seen_ann@)),
        articles_formatted(
            views(old(state).seen_ann@),
            old(state).initialized,
            *config,
            items@,
            now as int,
            views(final(state).seen_ann@),
            r@,
        ),
        final(state).seen_anilist@ == old(state).seen_anilist@,
        final(state).initialized == old(state).initialized,
        final(state).stats == old(state).stats,
{
    let first_run = !state.initialized;
    let demo_limit = config.scheduling.demo_mode_item_limit;
    let mut limit: usize = if items.len() < MAX_FEED_ITEMS {
        items.len()
    } else {
        MAX_FEED_ITEMS
    };
    if first_run && demo_limit < limit {
        limit = demo_limit;
    }
    let ghost fmt = config.messages.formatting.ann;
    let ghost seen0 = views(state.seen_ann@);
    let mut out: Vec<ArticleNotification> = Vec::new();
    let mut i: usize = 0;
    while i < limit
        invariant
            i <= limit <= items@.len(),
            limit == article_limit(
                items@.len(),
                !old(state).initialized,
                config.scheduling.demo_mode_item_limit as nat,
            ),
            fmt == config.messages.formatting.ann,
            seen0 == views(old(state).seen_ann@),
            views(state.seen_ann@) == article_batch(seen0, items@, i as nat, fmt, now as int).0,
            out@.len() == article_batch(seen0, items@, i as nat, fmt, now as int).1.len(),
            forall|k: int|
                0 <= k < out@.len() ==> article_shows(
                    #[trigger] out@[k],
                    article_batch(seen0, items@, i as nat, fmt, now as int).1[k],
                    config.messages.colors.ann,
                ),
            state.seen_anilist@ == old(state).seen_anilist@,
            state.initialized == old(state).initialized,
            state.stats == old(state).stats,
            no_duplicates(views(state.seen_ann@)),
        decreases limit - i,
    {
        let it = &items[i];
        let guid = match &it.guid {
            Some(g) => g.clone(),
            None => match &it.link {
                Some(l) => l.clone(),
                None => String::new(),
            },
        };
        assert(guid@ == item_guid(items@[i as int]));
        if !guid.as_str().is_empty() && !state.is_seen_ann(guid.as_str()) {
            state.add_seen_ann(guid);
            let note = build_article(it, &config.messages.formatting.ann, config.messages.colors.ann, now);
            out.push(note);
        }
        i = i + 1;
    }
    out
}

impl AnnSource {
    /// Picks the new entries among the first ones of a feed, remembers them
    /// and builds their messages, timestamped with the current time.
    pub fn filter_and_format(&self, state: &mut AppState, config: &Config, raw_items: Vec<FeedItem>) -> (r:
        Vec<ArticleNotification>)
        requires
            no_duplicates(views(old(state).seen_ann@)),
        ensures
            no_duplicates(views(final(state).seen_ann@)),
            exists|now: i64|
                now >= 0 && #[trigger] articles_formatted(
                    views(old(state).seen_ann@),
                    old(state).initialized,
                    *config,
                    raw_items@,
                    now as int,
                    views(final(state).seen_ann@),
                    r@,
                ),
            final(state).seen_anilist@ == old(state).seen_anilist@,
            final(state).initialized == old(state).initialized,
            final(state).stats == old(state).stats,
    {
        let now = now_unix_seconds();
        format_articles(state, config, &raw_items, now)
    }

    /// Counts the delivered articles.
    pub fn update_state(&self, state: &mut AppState, success_count: u32)
        requires
            old(state).stats.total_articles_sent + success_count <= u64::MAX,
        ensures
            final(state).stats.total_articles_sent == old(state).stats.total_articles_sent
                + success_count,
            success_count > 0 ==> (final(state).stats.last_check matches Some(t) && is_rfc3339_utc(t@)),
            success_count == 0 ==> final(state).stats.last_check == old(state).stats.last_check,
            final(state).stats.total_episodes_sent == old(state).stats.total_episodes_sent,
            final(state).stats.total_errors == old(state).stats.total_errors,
            final(state).seen_ann@ == old(state).seen_ann@,
            final(state).seen_anilist@ == old(state).seen_anilist@,
            final(state).initialized == old(state).initialized,
    {
        let mut k: u32 = 0;
        while k < success_count
            invariant
                k <= success_count,
                old(state).stats.total_articles_sent + success_count <= u64::MAX,
                state.stats.total_articles_sent == old(state).stats.total_articles_sent + k,
                k > 0 ==> (state.stats.last_check matches Some(t) && is_rfc3339_utc(t@)),
                k == 0 ==> state.stats.last_check == old(state).stats.last_check,
                state.stats.total_episodes_sent == old(state).stats.total_episodes_sent,
                state.stats.total_errors == old(state).stats.total_errors,
                state.seen_ann@ == old(state).seen_ann@,
                state.seen_anilist@ == old(state).seen_anilist@,
                state.initialized == old(state).initialized,
            decreases success_count - k,
        {
            state.increment_articles_sent();
            k = k + 1;
        }
    }
}


/// The identifier an entry is remembered by, `None` for an entry without
/// one.
pub open spec fn article_key(it: FeedItem) -> Option<Seq<char>> {
    if item_guid(it).len() == 0 {
        None
    } else {
        Some(item_guid(it))
    }
}

/// The identifiers of the entries.
pub open spec fn article_keys(items: Seq<FeedItem>) -> Seq<Option<Seq<char>>> {
    items.map_values(|it: FeedItem| article_key(it))
}

proof fn lemma_article_batch_dedup(
    seen: Seq<Seq<char>>,
    items: Seq<FeedItem>,
    n: nat,
    fmt: AnnFormattingConfig,
    now: int,
)
    ensures
        article_batch(seen, items, n, fmt, now).0 == dedup_batch(
            seen,
            article_keys(items),
            n,
            MAX_SEEN_ANN as nat,
        ).0,
        article_batch(seen, items, n, fmt, now).1.len() == dedup_batch(
            seen,
            article_keys(items),
            n,
            MAX_SEEN_ANN as nat,
        ).1.len(),
    decreases n,
{
    if n > 0 && n <= items.len() {
        lemma_article_batch_dedup(seen, items, (n - 1) as nat, fmt, now);
        assert(article_keys(items)[n - 1] == article_key(items[n - 1]));
    }
}

/// What a check announces, by identifier: each article at most once; every
/// announced article is remembered afterwards (so the next check skips
/// it); when the remembered list cannot overflow during the check, no
/// article remembered before is announced; and at most as many articles
/// as the check looks at (on a first run, at most the demo limit).
pub proof fn lemma_articles_announced_once(
    seen: Seq<Seq<char>>,
    items: Seq<FeedItem>,
    initialized: bool,
    config: Config,
    now: int,
)
    ensures
        ({
            let lim = article_limit(
                items.len(),
                !initialized,
                config.scheduling.demo_mode_item_limit as nat,
            );
            let batch = article_batch(seen, items, lim, config.messages.formatting.ann, now);
            let d = dedup_batch(seen, article_keys(items), lim, MAX_SEEN_ANN as nat);
            &&& batch.0 == d.0
            &&& batch.1.len() == d.1.len()
            &&& no_duplicates(d.1)
            &&& forall|k: Seq<char>| d.1.contains(k) ==> batch.0.contains(k)
            &&& seen.len() + lim <= MAX_SEEN_ANN ==> forall|k: Seq<char>|
                d.1.contains(k) ==> !seen.contains(k)
            &&& batch.1.len() <= lim
            &&& lim <= MAX_FEED_ITEMS
            &&& !initialized ==> batch.1.len() <= config.scheduling.demo_mode_item_limit
        }),
{
    let lim = article_limit(items.len(), !initialized, config.scheduling.demo_mode_item_limit as nat);
    lemma_article_batch_dedup(seen, items, lim, config.messages.formatting.ann, now);
    lemma_dedup_announces_once(seen, article_keys(items), lim, MAX_SEEN_ANN as nat);
    lemma_dedup_tail(seen, article_keys(items), lim, MAX_SEEN_ANN as nat);
}


/// Checking the same feed twice after a first check: when the first check
/// cannot overflow the remembered list, the second announces nothing and
/// leaves the list unchanged, whatever the time.
pub proof fn lemma_repeated_check_announces_nothing(
    seen: Seq<Seq<char>>,
    config: Config,
    items: Seq<FeedItem>,
    now: int,
    seen_after: Seq<Seq<char>>,
    notes: Seq<ArticleNotification>,
    later: int,
    seen_again: Seq<Seq<char>>,
    notes_again: Seq<ArticleNotification>,
)
    requires
        seen.len() + MAX_FEED_ITEMS <= MAX_SEEN_ANN,
        articles_formatted(seen, true, config, items, now, seen_after, notes),
        articles_formatted(seen_after, true, config, items, later, seen_again, notes_again),
    ensures
        notes_again.len() == 0,
        seen_again == seen_after,
{
    let fmt = config.messages.formatting.ann;
    let n = article_limit(items.len(), false, config.scheduling.demo_mode_item_limit as nat);
    lemma_article_batch_dedup(seen, items, n, fmt, now);
    lemma_article_batch_dedup(seen_after, items, n, fmt, later);
    lemma_dedup_repeat_announces_nothing(seen, article_keys(items), n, MAX_SEEN_ANN as nat);
}


/// The description an article message is laid out with (and offers to its
/// templates as `{description}`): the cleaned feed description, cut after
/// `truncate_description` characters with `...` added when it is longer
/// (so at most three characters over the limit), or the placeholder when
/// it cleans to nothing.
pub proof fn lemma_article_description_shortened(it: FeedItem, fmt: AnnFormattingConfig, now: int)
    ensures
        ({
            let n = fmt.truncate_description as nat;
            let c = cleaned(
                match it.description {
                    Some(d) => d@,
                    None => Seq::empty(),
                },
            );
            let shown = if c.len() == 0 {
                "*No description available.*"@
            } else if c.len() > n {
                c.take(n as int) + "..."@
            } else {
                c
            };
            &&& article_model(it, fmt, now).blocks == layout(
                fmt.sections@,
                LayoutInput {
                    vars: article_vars(it, fmt, now),
                    description: shown,
                    link_key: "link"@,
                    thumbnails: true,
                },
            )
            &&& article_vars(it, fmt, now)[3] == ("description"@, shown)
            &&& c.len() > 0 ==> shown.len() <= n + 3
        }),
{
    let c = cleaned(
        match it.description {
            Some(d) => d@,
            None => Seq::empty(),
        },
    );
    lemma_truncated_bounds(c, fmt.truncate_description as nat);
}

} // verus!
