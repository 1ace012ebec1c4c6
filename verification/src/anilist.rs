//! AniList episodes: the airing window asked for, which episodes are new,
//! and the messages announcing them.

use vstd::prelude::*;
use vstd::string::*;
use crate::clock::{is_rfc3339_utc, now_unix_seconds};
use crate::json::{json_str, push_json_str};
use crate::config::{AnilistFormattingConfig, Config};
use crate::layout::{layout, layout_sections, Block, LayoutInput};
use crate::models::{AiringSchedule, Component};
use crate::sources::{is_message, message_components, no_description, relative_time, relative_time_tag};
use crate::state::{
    dedup_batch, lemma_dedup_announces_once, lemma_dedup_repeat_announces_nothing, lemma_dedup_tail, no_duplicates, remembered, AppState,
    MAX_SEEN_ANILIST,
};
use crate::template::TemplateVars;
use crate::text::{i64_to_string, int_decimal, lemma_truncated_bounds, truncate_chars, truncated};
use crate::utils::{clean_html, cleaned};

verus! {

broadcast use vstd::string::group_string_axioms;

/// How far back episodes are looked for, in seconds (a day).
pub const AIRING_WINDOW_SECONDS: i64 = 86400;

/// The airing-time window asked for at Unix time `now`: the last day.
pub fn anilist_window(now: i64) -> (r: (i64, i64))
    requires
        now >= i64::MIN + AIRING_WINDOW_SECONDS,
    ensures
        r.0 == now - AIRING_WINDOW_SECONDS,
        r.1 == now,
{
    (now - AIRING_WINDOW_SECONDS, now)
}

/// The airing-time window for the current time: the day that ends now.
/// It is always there, since the clock never reads before 1970.
pub fn current_anilist_window() -> (r: Option<(i64, i64)>)
    ensures
        r matches Some(w) && w.1 >= 0 && w.0 == w.1 - AIRING_WINDOW_SECONDS,
{
    let now = now_unix_seconds();
    Some(anilist_window(now))
}

/// The GraphQL query for the episodes aired between `$from` and `$to`.
pub open spec fn anilist_query() -> Seq<char> {
    "\n        query ($from: Int, $to: Int) {\n            Page(perPage: 50) {\n                airingSchedules(airingAt_greater: $from, airingAt_lesser: $to, sort: TIME_DESC) {\n                    id\n                    episode\n                    airingAt\n                    media {\n                        title { romaji english }\n                        siteUrl\n                        coverImage { large }\n                        description(asHtml: false)\n                        averageScore\n                        studios(isMain: true) {\n                            nodes { name }\n                        }\n                    }\n                }\n            }\n        }\n    "@
}

/// The JSON body of the AniList request for the window `from` to `to`.
pub open spec fn anilist_request_spec(from: int, to: int) -> Seq<char> {
    "{\"query\":"@ + json_str(anilist_query()) + ",\"variables\":{\"from\":"@ + int_decimal(from)
        + ",\"to\":"@ + int_decimal(to) + "}}"@
}

/// The JSON body of the AniList request for the episodes aired in the
/// window `from` to `to`.
pub fn anilist_request_body(from: i64, to: i64) -> (r: String)
    ensures
        r@ == anilist_request_spec(from as int, to as int),
{
    let mut r = "{\"query\":".to_string();
    push_json_str(&mut r, "\n        query ($from: Int, $to: Int) {\n            Page(perPage: 50) {\n                airingSchedules(airingAt_greater: $from, airingAt_lesser: $to, sort: TIME_DESC) {\n                    id\n                    episode\n                    airingAt\n                    media {\n                        title { romaji english }\n                        siteUrl\n                        coverImage { large }\n                        description(asHtml: false)\n                        averageScore\n                        studios(isMain: true) {\n                            nodes { name }\n                        }\n                    }\n                }\n            }\n        }\n    ");
    r.append(",\"variables\":{\"from\":");
    r.append(i64_to_string(from).as_str());
    r.append(",\"to\":");
    r.append(i64_to_string(to).as_str());
    r.append("}}");
    r
}

/// A message announcing one episode.
#[derive(Debug)]
pub struct EpisodeNotification {
    pub components: Vec<Component>,
    pub title: String,
    pub episode: i32,
}

/// What an episode message shows.
pub struct EpisodeModel {
    pub title: Seq<char>,
    pub episode: i32,
    pub blocks: Seq<Block>,
}

/// The show's English title, else its romaji title, else `Unknown Anime`.
pub open spec fn episode_title(s: AiringSchedule) -> Seq<char> {
    match s.media.title.english {
        Some(t) => t@,
        None => match s.media.title.romaji {
            Some(t) => t@,
            None => "Unknown Anime"@,
        },
    }
}

/// The show's first main studio, or `Unknown Studio`.
pub open spec fn studio_name(s: AiringSchedule) -> Seq<char> {
    match s.media.studios {
        Some(st) => if st.nodes@.len() > 0 {
            st.nodes@[0].name@
        } else {
            "Unknown Studio"@
        },
        None => "Unknown Studio"@,
    }
}

/// The show's average score, 0 when it has none.
pub open spec fn score_of(s: AiringSchedule) -> i32 {
    match s.media.average_score {
        Some(v) => v,
        None => 0,
    }
}

/// The description shown: the cleaned description cut to `n` characters,
/// or the placeholder when there is none.
pub open spec fn episode_description(s: AiringSchedule, n: nat) -> Seq<char> {
    match s.media.description {
        Some(d) => if d@.len() > 0 {
            truncated(cleaned(d@), n)
        } else {
            no_description()
        },
        None => no_description(),
    }
}

/// When the episode aired, as relative-time markup, or `unknown` for a
/// time that is not positive.
pub open spec fn airing_display(t: i64) -> Seq<char> {
    if t > 0 {
        relative_time_tag(t as int)
    } else {
        "unknown"@
    }
}

/// The large cover image, or nothing.
pub open spec fn cover_url(s: AiringSchedule) -> Seq<char> {
    match s.media.cover_image {
        Some(c) => match c.large {
            Some(u) => u@,
            None => Seq::empty(),
        },
        None => Seq::empty(),
    }
}

/// The values an episode's templates may use.
pub open spec fn episode_vars(s: AiringSchedule, fmt: AnilistFormattingConfig) -> Seq<
    (Seq<char>, Seq<char>),
> {
    seq![
        ("title_prefix"@, fmt.title_prefix@),
        ("title"@, episode_title(s)),
        ("episode"@, int_decimal(s.episode as int)),
        (
            "airing_time"@,
            if fmt.show_timestamp {
                airing_display(s.airing_at)
            } else {
                Seq::empty()
            },
        ),
        ("url"@, s.media.site_url@),
        ("cover_url"@, cover_url(s)),
        ("studio"@, studio_name(s)),
        (
            "score"@,
            if fmt.show_score {
                int_decimal(score_of(s) as int)
            } else {
                Seq::empty()
            },
        ),
    ]
}

/// What the message for episode `s` shows.
pub open spec fn episode_model(s: AiringSchedule, fmt: AnilistFormattingConfig) -> EpisodeModel {
    EpisodeModel {
        title: episode_title(s),
        episode: s.episode,
        blocks: layout(
            fmt.sections@,
            LayoutInput {
                vars: episode_vars(s, fmt),
                description: episode_description(s, fmt.truncate_description as nat),
                link_key: "url"@,
                thumbnails: fmt.show_cover,
            },
        ),
    }
}

/// Whether notification `n` is the message with accent colour `color`
/// showing `m`.
pub open spec fn episode_shows(n: EpisodeNotification, m: EpisodeModel, color: u32) -> bool {
    n.title@ == m.title && n.episode == m.episode && is_message(n.components@, color, m.blocks)
}

/// How many episodes a check looks at: all of them, and on the first run
/// at most `demo_limit`.
pub open spec fn episode_limit(len: nat, first_run: bool, demo_limit: nat) -> nat {
    if first_run && demo_limit < len {
        demo_limit
    } else {
        len
    }
}

/// The remembered episode ids and the messages after the first `n`
/// episodes: an episode already seen is skipped; any other is remembered
/// and announced.
pub open spec fn episode_batch(
    seen: Seq<i64>,
    schedules: Seq<AiringSchedule>,
    n: nat,
    fmt: AnilistFormattingConfig,
) -> (Seq<i64>, Seq<EpisodeModel>)
    decreases n,
{
    if n == 0 || n > schedules.len() {
        (seen, Seq::empty())
    } else {
        let prev = episode_batch(seen, schedules, (n - 1) as nat, fmt);
        let s = schedules[n - 1];
        if prev.0.contains(s.id) {
            prev
        } else {
            (
                remembered(prev.0, s.id, MAX_SEEN_ANILIST as nat),
                prev.1.push(episode_model(s, fmt)),
            )
        }
    }
}

/// Whether the check that started with the remembered ids `seen` (after a
/// first check or not) ended with `seen_after` and produced `notes`.
pub open spec fn episodes_formatted(
    seen: Seq<i64>,
    initialized: bool,
    config: Config,
    schedules: Seq<AiringSchedule>,
    seen_after: Seq<i64>,
    notes: Seq<EpisodeNotification>,
) -> bool {
    let lim = episode_limit(
        schedules.len(),
        !initialized,
        config.scheduling.demo_mode_item_limit as nat,
    );
    let batch = episode_batch(seen, schedules, lim, config.messages.formatting.anilist);
    &&& seen_after == batch.0
    &&& notes.len() == batch.1.len()
    &&& forall|i: int|
        0 <= i < notes.len() ==> episode_shows(
            #[trigger] notes[i],
            batch.1[i],
            config.messages.colors.anilist,
        )
}

/// Builds the message for episode `s`.
pub fn build_episode(s: &AiringSchedule, fmt: &AnilistFormattingConfig, color: u32) -> (r:
    EpisodeNotification)
    ensures
        episode_shows(r, episode_model(*s, *fmt), color),
{
    let title = match &s.media.title.english {
        Some(t) => t.clone(),
        None => match &s.media.title.romaji {
            Some(t) => t.clone(),
            None => "Unknown Anime".to_string(),
        },
    };
    let studio = match &s.media.studios {
        Some(st) => if st.nodes.len() > 0 {
            st.nodes[0].name.clone()
        } else {
            "Unknown Studio".to_string()
        },
        None => "Unknown Studio".to_string(),
    };
    let score: i32 = match s.media.average_score {
        Some(v) => v,
        None => 0,
    };
    let description = match &s.media.description {
        Some(d) => if !d.as_str().is_empty() {
            let c = clean_html(d.as_str());
            truncate_chars(c.as_str(), fmt.truncate_description)
        } else {
            "*No description available.*".to_string()
        },
        None => "*No description available.*".to_string(),
    };
    let airing = if s.airing_at > 0 {
        relative_time(s.airing_at)
    } else {
        "unknown".to_string()
    };
    let cover = match &s.media.cover_image {
        Some(c) => match &c.large {
            Some(u) => u.clone(),
            None => String::new(),
        },
        None => String::new(),
    };
    let mut vars = TemplateVars::new();
    vars.insert("title_prefix", fmt.title_prefix.clone());
    vars.insert("title", title.clone());
    vars.insert("episode", i64_to_string(s.episode as i64));
    vars.insert(
        "airing_time",
        if fmt.show_timestamp {
            airing
        } else {
            String::new()
        },
    );
    vars.insert("url", s.media.site_url.clone());
    vars.insert("cover_url", cover);
    vars.insert("studio", studio);
    vars.insert(
        "score",
        if fmt.show_score {
            i64_to_string(score as i64)
        } else {
            String::new()
        },
    );
    assert(vars.pairs() =~= episode_vars(*s, *fmt));
    let inner = layout_sections(&fmt.sections, &vars, description.as_str(), "url", fmt.show_cover);
    let components = message_components(color, inner);
    EpisodeNotification { components, title, episode: s.episode }
}

/// Picks the new episodes, remembers them, and builds their messages.
pub fn format_episodes(state: &mut AppState, config: &Config, schedules: &Vec<AiringSchedule>) -> (r:
    Vec<EpisodeNotification>)
    requires
        no_duplicates(old(state).seen_anilist@),
    ensures
        no_duplicates(final(state).seen_anilist@),
        episodes_formatted(
            old(state).seen_anilist@,
            old(state).initialized,
            *config,
            schedules@,
            final(state).seen_anilist@,
            r@,
        ),
        final(state).seen_ann@ == old(state).seen_ann@,
        final(state).initialized == old(state).initialized,
        final(state).stats == old(state).stats,
{
    let first_run = !state.initialized;
    let demo_limit = config.scheduling.demo_mode_item_limit;
    let mut limit: usize = schedules.len();
    if first_run && demo_limit < limit {
        limit = demo_limit;
    }
    let ghost fmt = config.messages.formatting.anilist;
    let ghost seen0 = state.seen_anilist@;
    let mut out: Vec<EpisodeNotification> = Vec::new();
    let mut i: usize = 0;
    while i < limit
        invariant
            i <= limit <= schedules@.len(),
            limit == episode_limit(
                schedules@.len(),
                !old(state).initialized,
                config.scheduling.demo_mode_item_limit as nat,
            ),
            fmt == config.messages.formatting.anilist,
            seen0 == old(state).seen_anilist@,
            state.seen_anilist@ == episode_batch(seen0, schedules@, i as nat, fmt).0,
            out@.len() == episode_batch(seen0, schedules@, i as nat, fmt).1.len(),
            forall|k: int|
                0 <= k < out@.len() ==> episode_shows(
                    #[trigger] out@[k],
                    episode_batch(seen0, schedules@, i as nat, fmt).1[k],
                    config.messages.colors.anilist,
                ),
            state.seen_ann@ == old(state).seen_ann@,
            state.initialized == old(state).initialized,
            state.stats == old(state).stats,
            no_duplicates(state.seen_anilist@),
        decreases limit - i,
    {
        let s = &schedules[i];
        if !state.is_seen_anilist(s.id) {
            state.add_seen_anilist(s.id);
            let note = build_episode(s, &config.messages.formatting.anilist, config.messages.colors.anilist);
            out.push(note);
        }
        i = i + 1;
    }
    out
}

/// Counts the delivered episodes.
pub fn record_episodes_sent(state: &mut AppState, success_count: u32)
    requires
        old(state).stats.total_episodes_sent + success_count <= u64::MAX,
    ensures
        final(state).stats.total_episodes_sent == old(state).stats.total_episodes_sent
            + success_count,
        success_count > 0 ==> (final(state).stats.last_check matches Some(t) && is_rfc3339_utc(t@)),
        success_count == 0 ==> final(state).stats.last_check == old(state).stats.last_check,
        final(state).stats.total_articles_sent == old(state).stats.total_articles_sent,
        final(state).stats.total_errors == old(state).stats.total_errors,
        final(state).seen_ann@ == old(state).seen_ann@,
        final(state).seen_anilist@ == old(state).seen_anilist@,
        final(state).initialized == old(state).initialized,
{
    let mut k: u32 = 0;
    while k < success_count
        invariant
            k <= success_count,
            old(state).stats.total_episodes_sent + success_count <= u64::MAX,
            state.stats.total_episodes_sent == old(state).stats.total_episodes_sent + k,
            k > 0 ==> (state.stats.last_check matches Some(t) && is_rfc3339_utc(t@)),
            k == 0 ==> state.stats.last_check == old(state).stats.last_check,
            state.stats.total_articles_sent == old(state).stats.total_articles_sent,
            state.stats.total_errors == old(state).stats.total_errors,
            state.seen_ann@ == old(state).seen_ann@,
            state.seen_anilist@ == old(state).seen_anilist@,
            state.initialized == old(state).initialized,
        decreases success_count - k,
    {
        state.increment_episodes_sent();
        k = k + 1;
    }
}


/// The ids of the episodes.
pub open spec fn episode_keys(schedules: Seq<AiringSchedule>) -> Seq<Option<i64>> {
    schedules.map_values(|s: AiringSchedule| Some(s.id))
}

proof fn lemma_episode_batch_dedup(
    seen: Seq<i64>,
    schedules: Seq<AiringSchedule>,
    n: nat,
    fmt: AnilistFormattingConfig,
)
    ensures
        episode_batch(seen, schedules, n, fmt).0 == dedup_batch(
            seen,
            episode_keys(schedules),
            n,
            MAX_SEEN_ANILIST as nat,
        ).0,
        episode_batch(seen, schedules, n, fmt).1.len() == dedup_batch(
            seen,
            episode_keys(schedules),
            n,
            MAX_SEEN_ANILIST as nat,
        ).1.len(),
    decreases n,
{
    if n > 0 && n <= schedules.len() {
        lemma_episode_batch_dedup(seen, schedules, (n - 1) as nat, fmt);
        assert(episode_keys(schedules)[n - 1] == Some(schedules[n - 1].id));
    }
}

/// What a check announces, by episode id: each episode at most once; every
/// announced episode is remembered afterwards (so the next check skips
/// it); when the remembered list cannot overflow during the check, no
/// episode remembered before is announced; and on a first run at most the
/// demo limit. The check looks at no more than `MAX_SEEN_ANILIST / 2`
/// episodes (the query asks for 50).
pub proof fn lemma_episodes_announced_once(
    seen: Seq<i64>,
    schedules: Seq<AiringSchedule>,
    initialized: bool,
    config: Config,
)
    requires
        schedules.len() <= MAX_SEEN_ANILIST / 2,
    ensures
        ({
            let lim = episode_limit(
                schedules.len(),
                !initialized,
                config.scheduling.demo_mode_item_limit as nat,
            );
            let batch = episode_batch(seen, schedules, lim, config.messages.formatting.anilist);
            let d = dedup_batch(seen, episode_keys(schedules), lim, MAX_SEEN_ANILIST as nat);
            &&& batch.0 == d.0
            &&& batch.1.len() == d.1.len()
            &&& no_duplicates(d.1)
            &&& forall|k: i64| d.1.contains(k) ==> batch.0.contains(k)
            &&& seen.len() + lim <= MAX_SEEN_ANILIST ==> forall|k: i64|
                d.1.contains(k) ==> !seen.contains(k)
            &&& batch.1.len() <= lim
            &&& !initialized ==> batch.1.len() <= config.scheduling.demo_mode_item_limit
        }),
{
    let lim = episode_limit(schedules.len(), !initialized, config.scheduling.demo_mode_item_limit as nat);
    lemma_episode_batch_dedup(seen, schedules, lim, config.messages.formatting.anilist);
    lemma_dedup_announces_once(seen, episode_keys(schedules), lim, MAX_SEEN_ANILIST as nat);
    lemma_dedup_tail(seen, episode_keys(schedules), lim, MAX_SEEN_ANILIST as nat);
}


/// Checking the same AniList reply twice after a first check: when the
/// first check cannot overflow the remembered list, the second announces
/// nothing and leaves the list unchanged.
pub proof fn lemma_repeated_check_announces_nothing(
    seen: Seq<i64>,
    config: Config,
    schedules: Seq<AiringSchedule>,
    seen_after: Seq<i64>,
    notes: Seq<EpisodeNotification>,
    seen_again: Seq<i64>,
    notes_again: Seq<EpisodeNotification>,
)
    requires
        seen.len() + schedules.len() <= MAX_SEEN_ANILIST,
        episodes_formatted(seen, true, config, schedules, seen_after, notes),
        episodes_formatted(seen_after, true, config, schedules, seen_again, notes_again),
    ensures
        notes_again.len() == 0,
        seen_again == seen_after,
{
    let fmt = config.messages.formatting.anilist;
    let n = schedules.len();
    lemma_episode_batch_dedup(seen, schedules, n, fmt);
    lemma_episode_batch_dedup(seen_after, schedules, n, fmt);
    lemma_dedup_repeat_announces_nothing(seen, episode_keys(schedules), n, MAX_SEEN_ANILIST as nat);
}


/// The description an episode message is laid out with: the cleaned
/// AniList description, cut after `truncate_description` characters with
/// `...` added when it is longer (so at most three characters over the
/// limit), or the placeholder when AniList gives none.
pub proof fn lemma_episode_description_shortened(s: AiringSchedule, fmt: AnilistFormattingConfig)
    ensures
        ({
            let n = fmt.truncate_description as nat;
            let shown = match s.media.description {
                Some(d) => if d@.len() > 0 {
                    if cleaned(d@).len() > n {
                        cleaned(d@).take(n as int) + "..."@
                    } else {
                        cleaned(d@)
                    }
                } else {
                    "*No description available.*"@
                },
                None => "*No description available.*"@,
            };
            &&& episode_model(s, fmt).blocks == layout(
                fmt.sections@,
                LayoutInput {
                    vars: episode_vars(s, fmt),
                    description: shown,
                    link_key: "url"@,
                    thumbnails: fmt.show_cover,
                },
            )
            &&& (s.media.description matches Some(d) && d@.len() > 0) ==> shown.len() <= n + 3
        }),
{
    reveal_strlit("...");
    match s.media.description {
        Some(d) => if d@.len() > 0 {
            lemma_truncated_bounds(cleaned(d@), fmt.truncate_description as nat);
        },
        None => {},
    }
}

/// An episode message is titled with the show's English title, else its
/// romaji title, else `Unknown Anime`; it carries the episode number; and
/// its templates see that title, the episode number in decimal, the show's
/// page, its first main studio (else `Unknown Studio`) and, when scores are
/// shown, the average score in decimal (0 when there is none).
pub proof fn lemma_episode_fields(s: AiringSchedule, fmt: AnilistFormattingConfig)
    ensures
        ({
            let title = match s.media.title.english {
                Some(t) => t@,
                None => match s.media.title.romaji {
                    Some(t) => t@,
                    None => "Unknown Anime"@,
                },
            };
            let vars = episode_vars(s, fmt);
            &&& episode_model(s, fmt).title == title
            &&& episode_model(s, fmt).episode == s.episode
            &&& vars.len() == 8
            &&& vars[1] == ("title"@, title)
            &&& vars[2] == ("episode"@, int_decimal(s.episode as int))
            &&& vars[4] == ("url"@, s.media.site_url@)
            &&& vars[6] == ("studio"@, match s.media.studios {
                Some(st) => if st.nodes@.len() > 0 {
                    st.nodes@[0].name@
                } else {
                    "Unknown Studio"@
                },
                None => "Unknown Studio"@,
            })
            &&& vars[7] == ("score"@, if fmt.show_score {
                int_decimal(
                    match s.media.average_score {
                        Some(v) => v as int,
                        None => 0,
                    },
                )
            } else {
                Seq::empty()
            })
        }),
{
}

} // verus!
