//! Replies of the health API: health, metrics and statistics, built from
//! the bot's state.

use vstd::prelude::*;
use vstd::string::*;
use crate::json::{json_bool, json_member, json_str, lemma_member_at, lemma_member_extend, push_json_str};
use crate::state::AppState;
use crate::text::{decimal, push_decimal};

verus! {

broadcast use vstd::string::group_string_axioms;

/// Reply of `/health`.
#[derive(Debug)]
pub struct HealthResponse {
    pub status: String,
    pub version: String,
    pub uptime_seconds: u64,
    pub stats: Option<Stats>,
}

/// Statistics in a health reply.
#[derive(Debug)]
pub struct Stats {
    pub articles_sent: u64,
    pub episodes_sent: u64,
    pub errors: u64,
    pub seen_articles: usize,
    pub seen_episodes: usize,
    pub last_check: Option<String>,
}

/// JSON of an optional string: the string, or `null`.
pub open spec fn json_opt_str(o: Option<String>) -> Seq<char> {
    match o {
        Some(s) => json_str(s@),
        None => "null"@,
    }
}

/// JSON of health statistics.
pub open spec fn stats_json(s: Stats) -> Seq<char> {
    "{\"articles_sent\":"@ + decimal(s.articles_sent as nat) + ",\"episodes_sent\":"@ + decimal(
        s.episodes_sent as nat,
    ) + ",\"errors\":"@ + decimal(s.errors as nat) + ",\"seen_articles\":"@ + decimal(
        s.seen_articles as nat,
    ) + ",\"seen_episodes\":"@ + decimal(s.seen_episodes as nat) + ",\"last_check\":"@
        + json_opt_str(s.last_check) + "}"@
}

/// JSON of a health reply; statistics are left out when absent.
pub open spec fn health_json(h: HealthResponse) -> Seq<char> {
    "{\"status\":"@ + json_str(h.status@) + ",\"version\":"@ + json_str(h.version@)
        + ",\"uptime_seconds\":"@ + decimal(h.uptime_seconds as nat) + match h.stats {
        Some(s) => ",\"stats\":"@ + stats_json(s),
        None => Seq::empty(),
    } + "}"@
}

fn push_opt_str(out: &mut String, o: &Option<String>)
    ensures
        final(out)@ == old(out)@ + json_opt_str(*o),
{
    match o {
        Some(s) => push_json_str(out, s.as_str()),
        None => out.append("null"),
    }
}

fn push_stats(out: &mut String, s: &Stats)
    ensures
        final(out)@ == old(out)@ + stats_json(*s),
{
    out.append("{\"articles_sent\":");
    push_decimal(out, s.articles_sent);
    out.append(",\"episodes_sent\":");
    push_decimal(out, s.episodes_sent);
    out.append(",\"errors\":");
    push_decimal(out, s.errors);
    out.append(",\"seen_articles\":");
    push_decimal(out, s.seen_articles as u64);
    out.append(",\"seen_episodes\":");
    push_decimal(out, s.seen_episodes as u64);
    out.append(",\"last_check\":");
    push_opt_str(out, &s.last_check);
    out.append("}");
    assert(final(out)@ =~= old(out)@ + stats_json(*s));
}

impl HealthResponse {
    /// The health reply for `state`, for a bot of version `version` that
    /// has been up `uptime_seconds` seconds.
    pub fn from_state(state: &AppState, version: &str, uptime_seconds: u64) -> (r: Self)
        ensures
            r.status@ == "🟢 healthy"@,
            r.version@ == version@,
            r.uptime_seconds == uptime_seconds,
            r.stats matches Some(s) && s.articles_sent == state.stats.total_articles_sent
                && s.episodes_sent == state.stats.total_episodes_sent && s.errors
                == state.stats.total_errors && s.seen_articles == state.seen_ann@.len()
                && s.seen_episodes == state.seen_anilist@.len() && s.last_check
                == state.stats.last_check,
    {
        HealthResponse {
            status: "🟢 healthy".to_string(),
            version: version.to_string(),
            uptime_seconds,
            stats: Some(
                Stats {
                    articles_sent: state.stats.total_articles_sent,
                    episodes_sent: state.stats.total_episodes_sent,
                    errors: state.stats.total_errors,
                    seen_articles: state.seen_ann.len(),
                    seen_episodes: state.seen_anilist.len(),
                    last_check: state.stats.last_check.clone(),
                },
            ),
        }
    }

    /// The JSON text of this reply.
    pub fn to_json(&self) -> (r: String)
        ensures
            r@ == health_json(*self),
    {
        let mut out = String::new();
        out.append("{\"status\":");
        push_json_str(&mut out, self.status.as_str());
        out.append(",\"version\":");
        push_json_str(&mut out, self.version.as_str());
        out.append(",\"uptime_seconds\":");
        push_decimal(&mut out, self.uptime_seconds);
        match &self.stats {
            Some(s) => {
                out.append(",\"stats\":");
                push_stats(&mut out, s);
            },
            None => {},
        }
        out.append("}");
        assert(out@ =~= health_json(*self));
        out
    }
}

/// JSON of the `/metrics` reply (members in name order).
pub open spec fn metrics_json(state: AppState) -> Seq<char> {
    "{\"metrics\":{\"articles_sent\":"@ + decimal(state.stats.total_articles_sent as nat)
        + ",\"episodes_sent\":"@ + decimal(state.stats.total_episodes_sent as nat) + ",\"errors\":"@
        + decimal(state.stats.total_errors as nat) + ",\"last_check\":"@ + json_opt_str(
        state.stats.last_check,
    ) + ",\"seen_articles\":"@ + decimal(state.seen_ann@.len()) + ",\"seen_episodes\":"@ + decimal(
        state.seen_anilist@.len(),
    ) + "}}"@
}

/// JSON of the `/stats` reply (members in name order).
pub open spec fn stats_reply_json(state: AppState) -> Seq<char> {
    "{\"cache\":{\"seen_articles\":"@ + decimal(state.seen_ann@.len()) + ",\"seen_episodes\":"@
        + decimal(state.seen_anilist@.len()) + "},\"initialized\":"@ + json_bool(state.initialized)
        + ",\"stats\":{\"articles_sent\":"@ + decimal(state.stats.total_articles_sent as nat)
        + ",\"episodes_sent\":"@ + decimal(state.stats.total_episodes_sent as nat) + ",\"errors\":"@
        + decimal(state.stats.total_errors as nat) + "}}"@
}

/// The `/metrics` reply for `state`.
pub fn metrics_reply(state: &AppState) -> (r: String)
    ensures
        r@ == metrics_json(*state),
{
    let mut out = String::new();
    out.append("{\"metrics\":{\"articles_sent\":");
    push_decimal(&mut out, state.stats.total_articles_sent);
    out.append(",\"episodes_sent\":");
    push_decimal(&mut out, state.stats.total_episodes_sent);
    out.append(",\"errors\":");
    push_decimal(&mut out, state.stats.total_errors);
    out.append(",\"last_check\":");
    push_opt_str(&mut out, &state.stats.last_check);
    out.append(",\"seen_articles\":");
    push_decimal(&mut out, state.seen_ann.len() as u64);
    out.append(",\"seen_episodes\":");
    push_decimal(&mut out, state.seen_anilist.len() as u64);
    out.append("}}");
    assert(out@ =~= metrics_json(*state));
    out
}

/// The `/stats` reply for `state`.
pub fn stats_reply(state: &AppState) -> (r: String)
    ensures
        r@ == stats_reply_json(*state),
{
    let mut out = String::new();
    out.append("{\"cache\":{\"seen_articles\":");
    push_decimal(&mut out, state.seen_ann.len() as u64);
    out.append(",\"seen_episodes\":");
    push_decimal(&mut out, state.seen_anilist.len() as u64);
    out.append("},\"initialized\":");
    if state.initialized {
        out.append("true");
    } else {
        out.append("false");
    }
    out.append(",\"stats\":{\"articles_sent\":");
    push_decimal(&mut out, state.stats.total_articles_sent);
    out.append(",\"episodes_sent\":");
    push_decimal(&mut out, state.stats.total_episodes_sent);
    out.append(",\"errors\":");
    push_decimal(&mut out, state.stats.total_errors);
    out.append("}}");
    assert(out@ =~= stats_reply_json(*state));
    out
}


proof fn lemma_metrics_articles_sent(state: AppState)
    ensures
        json_member(metrics_json(state), "articles_sent"@, decimal(state.stats.total_articles_sent as nat)),
{
    reveal_strlit("{\"metrics\":{\"articles_sent\":");
    reveal_strlit(",\"episodes_sent\":");
    reveal_strlit("articles_sent");
    reveal_strlit("{\"metrics\":{");
    let v = decimal(state.stats.total_articles_sent as nat);
    assert("{\"metrics\":{\"articles_sent\":"@ =~= "{\"metrics\":{"@ + (seq!['"'] + "articles_sent"@ + seq!['"', ':']));
    assert(",\"episodes_sent\":"@[0] == ',');
    let core = "{\"metrics\":{\"articles_sent\":"@ + v + ",\"episodes_sent\":"@;
    assert(core =~= "{\"metrics\":{"@ + (seq!['"'] + "articles_sent"@ + seq!['"', ':']) + v + ",\"episodes_sent\":"@);
    lemma_member_at(core, "{\"metrics\":{"@, "articles_sent"@, v, ",\"episodes_sent\":"@);
    lemma_member_extend((("{\"metrics\":{\"articles_sent\":"@ + decimal(state.stats.total_articles_sent as nat)) + ",\"episodes_sent\":"@), decimal(state.stats.total_episodes_sent as nat), "articles_sent"@, v);
    lemma_member_extend(((("{\"metrics\":{\"articles_sent\":"@ + decimal(state.stats.total_articles_sent as nat)) + ",\"episodes_sent\":"@) + decimal(state.stats.total_episodes_sent as nat)), ",\"errors\":"@, "articles_sent"@, v);
    lemma_member_extend((((("{\"metrics\":{\"articles_sent\":"@ + decimal(state.stats.total_articles_sent as nat)) + ",\"episodes_sent\":"@) + decimal(state.stats.total_episodes_sent as nat)) + ",\"errors\":"@), decimal(state.stats.total_errors as nat), "articles_sent"@, v);
    lemma_member_extend(((((("{\"metrics\":{\"articles_sent\":"@ + decimal(state.stats.total_articles_sent as nat)) + ",\"episodes_sent\":"@) + decimal(state.stats.total_episodes_sent as nat)) + ",\"errors\":"@) + decimal(state.stats.total_errors as nat)), ",\"last_check\":"@, "articles_sent"@, v);
    lemma_member_extend((((((("{\"metrics\":{\"articles_sent\":"@ + decimal(state.stats.total_articles_sent as nat)) + ",\"episodes_sent\":"@) + decimal(state.stats.total_episodes_sent as nat)) + ",\"errors\":"@) + decimal(state.stats.total_errors as nat)) + ",\"last_check\":"@), json_opt_str(state.stats.last_check), "articles_sent"@, v);
    lemma_member_extend(((((((("{\"metrics\":{\"articles_sent\":"@ + decimal(state.stats.total_articles_sent as nat)) + ",\"episodes_sent\":"@) + decimal(state.stats.total_episodes_sent as nat)) + ",\"errors\":"@) + decimal(state.stats.total_errors as nat)) + ",\"last_check\":"@) + json_opt_str(state.stats.last_check)), ",\"seen_articles\":"@, "articles_sent"@, v);
    lemma_member_extend((((((((("{\"metrics\":{\"articles_sent\":"@ + decimal(state.stats.total_articles_sent as nat)) + ",\"episodes_sent\":"@) + decimal(state.stats.total_episodes_sent as nat)) + ",\"errors\":"@) + decimal(state.stats.total_errors as nat)) + ",\"last_check\":"@) + json_opt_str(state.stats.last_check)) + ",\"seen_articles\":"@), decimal(state.seen_ann@.len()), "articles_sent"@, v);
    lemma_member_extend(((((((((("{\"metrics\":{\"articles_sent\":"@ + decimal(state.stats.total_articles_sent as nat)) + ",\"episodes_sent\":"@) + decimal(state.stats.total_episodes_sent as nat)) + ",\"errors\":"@) + decimal(state.stats.total_errors as nat)) + ",\"last_check\":"@) + json_opt_str(state.stats.last_check)) + ",\"seen_articles\":"@) + decimal(state.seen_ann@.len())), ",\"seen_episodes\":"@, "articles_sent"@, v);
    lemma_member_extend((((((((((("{\"metrics\":{\"articles_sent\":"@ + decimal(state.stats.total_articles_sent as nat)) + ",\"episodes_sent\":"@) + decimal(state.stats.total_episodes_sent as nat)) + ",\"errors\":"@) + decimal(state.stats.total_errors as nat)) + ",\"last_check\":"@) + json_opt_str(state.stats.last_check)) + ",\"seen_articles\":"@) + decimal(state.seen_ann@.len())) + ",\"seen_episodes\":"@), decimal(state.seen_anilist@.len()), "articles_sent"@, v);
    lemma_member_extend(((((((((((("{\"metrics\":{\"articles_sent\":"@ + decimal(state.stats.total_articles_sent as nat)) + ",\"episodes_sent\":"@) + decimal(state.stats.total_episodes_sent as nat)) + ",\"errors\":"@) + decimal(state.stats.total_errors as nat)) + ",\"last_check\":"@) + json_opt_str(state.stats.last_check)) + ",\"seen_articles\":"@) + decimal(state.seen_ann@.len())) + ",\"seen_episodes\":"@) + decimal(state.seen_anilist@.len())), "}}"@, "articles_sent"@, v);
}

proof fn lemma_metrics_episodes_sent(state: AppState)
    ensures
        json_member(metrics_json(state), "episodes_sent"@, decimal(state.stats.total_episodes_sent as nat)),
{
    reveal_strlit(",\"episodes_sent\":");
    reveal_strlit(",\"errors\":");
    reveal_strlit("episodes_sent");
    let v = decimal(state.stats.total_episodes_sent as nat);
    assert(",\"episodes_sent\":"@ =~= seq![','] + (seq!['"'] + "episodes_sent"@ + seq!['"', ':']));
    assert(",\"errors\":"@[0] == ',');
    let core = ",\"episodes_sent\":"@ + v + ",\"errors\":"@;
    assert(core =~= seq![','] + (seq!['"'] + "episodes_sent"@ + seq!['"', ':']) + v + ",\"errors\":"@);
    lemma_member_at(core, seq![','], "episodes_sent"@, v, ",\"errors\":"@);
    lemma_member_extend(core, ("{\"metrics\":{\"articles_sent\":"@ + decimal(state.stats.total_articles_sent as nat)), "episodes_sent"@, v);
    assert((((("{\"metrics\":{\"articles_sent\":"@ + decimal(state.stats.total_articles_sent as nat)) + ",\"episodes_sent\":"@) + decimal(state.stats.total_episodes_sent as nat)) + ",\"errors\":"@) =~= ("{\"metrics\":{\"articles_sent\":"@ + decimal(state.stats.total_articles_sent as nat)) + core);
    lemma_member_extend((((("{\"metrics\":{\"articles_sent\":"@ + decimal(state.stats.total_articles_sent as nat)) + ",\"episodes_sent\":"@) + decimal(state.stats.total_episodes_sent as nat)) + ",\"errors\":"@), decimal(state.stats.total_errors as nat), "episodes_sent"@, v);
    lemma_member_extend(((((("{\"metrics\":{\"articles_sent\":"@ + decimal(state.stats.total_articles_sent as nat)) + ",\"episodes_sent\":"@) + decimal(state.stats.total_episodes_sent as nat)) + ",\"errors\":"@) + decimal(state.stats.total_errors as nat)), ",\"last_check\":"@, "episodes_sent"@, v);
    lemma_member_extend((((((("{\"metrics\":{\"articles_sent\":"@ + decimal(state.stats.total_articles_sent as nat)) + ",\"episodes_sent\":"@) + decimal(state.stats.total_episodes_sent as nat)) + ",\"errors\":"@) + decimal(state.stats.total_errors as nat)) + ",\"last_check\":"@), json_opt_str(state.stats.last_check), "episodes_sent"@, v);
    lemma_member_extend(((((((("{\"metrics\":{\"articles_sent\":"@ + decimal(state.stats.total_articles_sent as nat)) + ",\"episodes_sent\":"@) + decimal(state.stats.total_episodes_sent as nat)) + ",\"errors\":"@) + decimal(state.stats.total_errors as nat)) + ",\"last_check\":"@) + json_opt_str(state.stats.last_check)), ",\"seen_articles\":"@, "episodes_sent"@, v);
    lemma_member_extend((((((((("{\"metrics\":{\"articles_sent\":"@ + decimal(state.stats.total_articles_sent as nat)) + ",\"episodes_sent\":"@) + decimal(state.stats.total_episodes_sent as nat)) + ",\"errors\":"@) + decimal(state.stats.total_errors as nat)) + ",\"last_check\":"@) + json_opt_str(state.stats.last_check)) + ",\"seen_articles\":"@), decimal(state.seen_ann@.len()), "episodes_sent"@, v);
    lemma_member_extend(((((((((("{\"metrics\":{\"articles_sent\":"@ + decimal(state.stats.total_articles_sent as nat)) + ",\"episodes_sent\":"@) + decimal(state.stats.total_episodes_sent as nat)) + ",\"errors\":"@) + decimal(state.stats.total_errors as nat)) + ",\"last_check\":"@) + json_opt_str(state.stats.last_check)) + ",\"seen_articles\":"@) + decimal(state.seen_ann@.len())), ",\"seen_episodes\":"@, "episodes_sent"@, v);
    lemma_member_extend((((((((((("{\"metrics\":{\"articles_sent\":"@ + decimal(state.stats.total_articles_sent as nat)) + ",\"episodes_sent\":"@) + decimal(state.stats.total_episodes_sent as nat)) + ",\"errors\":"@) + decimal(state.stats.total_errors as nat)) + ",\"last_check\":"@) + json_opt_str(state.stats.last_check)) + ",\"seen_articles\":"@) + decimal(state.seen_ann@.len())) + ",\"seen_episodes\":"@), decimal(state.seen_anilist@.len()), "episodes_sent"@, v);
    lemma_member_extend(((((((((((("{\"metrics\":{\"articles_sent\":"@ + decimal(state.stats.total_articles_sent as nat)) + ",\"episodes_sent\":"@) + decimal(state.stats.total_episodes_sent as nat)) + ",\"errors\":"@) + decimal(state.stats.total_errors as nat)) + ",\"last_check\":"@) + json_opt_str(state.stats.last_check)) + ",\"seen_articles\":"@) + decimal(state.seen_ann@.len())) + ",\"seen_episodes\":"@) + decimal(state.seen_anilist@.len())), "}}"@, "episodes_sent"@, v);
}

proof fn lemma_metrics_errors(state: AppState)
    ensures
        json_member(metrics_json(state), "errors"@, decimal(state.stats.total_errors as nat)),
{
    reveal_strlit(",\"errors\":");
    reveal_strlit(",\"last_check\":");
    reveal_strlit("errors");
    let v = decimal(state.stats.total_errors as nat);
    assert(",\"errors\":"@ =~= seq![','] + (seq!['"'] + "errors"@ + seq!['"', ':']));
    assert(",\"last_check\":"@[0] == ',');
    let core = ",\"errors\":"@ + v + ",\"last_check\":"@;
    assert(core =~= seq![','] + (seq!['"'] + "errors"@ + seq!['"', ':']) + v + ",\"last_check\":"@);
    lemma_member_at(core, seq![','], "errors"@, v, ",\"last_check\":"@);
    lemma_member_extend(core, ((("{\"metrics\":{\"articles_sent\":"@ + decimal(state.stats.total_articles_sent as nat)) + ",\"episodes_sent\":"@) + decimal(state.stats.total_episodes_sent as nat)), "errors"@, v);
    assert((((((("{\"metrics\":{\"articles_sent\":"@ + decimal(state.stats.total_articles_sent as nat)) + ",\"episodes_sent\":"@) + decimal(state.stats.total_episodes_sent as nat)) + ",\"errors\":"@) + decimal(state.stats.total_errors as nat)) + ",\"last_check\":"@) =~= ((("{\"metrics\":{\"articles_sent\":"@ + decimal(state.stats.total_articles_sent as nat)) + ",\"episodes_sent\":"@) + decimal(state.stats.total_episodes_sent as nat)) + core);
    lemma_member_extend((((((("{\"metrics\":{\"articles_sent\":"@ + decimal(state.stats.total_articles_sent as nat)) + ",\"episodes_sent\":"@) + decimal(state.stats.total_episodes_sent as nat)) + ",\"errors\":"@) + decimal(state.stats.total_errors as nat)) + ",\"last_check\":"@), json_opt_str(state.stats.last_check), "errors"@, v);
    lemma_member_extend(((((((("{\"metrics\":{\"articles_sent\":"@ + decimal(state.stats.total_articles_sent as nat)) + ",\"episodes_sent\":"@) + decimal(state.stats.total_episodes_sent as nat)) + ",\"errors\":"@) + decimal(state.stats.total_errors as nat)) + ",\"last_check\":"@) + json_opt_str(state.stats.last_check)), ",\"seen_articles\":"@, "errors"@, v);
    lemma_member_extend((((((((("{\"metrics\":{\"articles_sent\":"@ + decimal(state.stats.total_articles_sent as nat)) + ",\"episodes_sent\":"@) + decimal(state.stats.total_episodes_sent as nat)) + ",\"errors\":"@) + decimal(state.stats.total_errors as nat)) + ",\"last_check\":"@) + json_opt_str(state.stats.last_check)) + ",\"seen_articles\":"@), decimal(state.seen_ann@.len()), "errors"@, v);
    lemma_member_extend(((((((((("{\"metrics\":{\"articles_sent\":"@ + decimal(state.stats.total_articles_sent as nat)) + ",\"episodes_sent\":"@) + decimal(state.stats.total_episodes_sent as nat)) + ",\"errors\":"@) + decimal(state.stats.total_errors as nat)) + ",\"last_check\":"@) + json_opt_str(state.stats.last_check)) + ",\"seen_articles\":"@) + decimal(state.seen_ann@.len())), ",\"seen_episodes\":"@, "errors"@, v);
    lemma_member_extend((((((((((("{\"metrics\":{\"articles_sent\":"@ + decimal(state.stats.total_articles_sent as nat)) + ",\"episodes_sent\":"@) + decimal(state.stats.total_episodes_sent as nat)) + ",\"errors\":"@) + decimal(state.stats.total_errors as nat)) + ",\"last_check\":"@) + json_opt_str(state.stats.last_check)) + ",\"seen_articles\":"@) + decimal(state.seen_ann@.len())) + ",\"seen_episodes\":"@), decimal(state.seen_anilist@.len()), "errors"@, v);
    lemma_member_extend(((((((((((("{\"metrics\":{\"articles_sent\":"@ + decimal(state.stats.total_articles_sent as nat)) + ",\"episodes_sent\":"@) + decimal(state.stats.total_episodes_sent as nat)) + ",\"errors\":"@) + decimal(state.stats.total_errors as nat)) + ",\"last_check\":"@) + json_opt_str(state.stats.last_check)) + ",\"seen_articles\":"@) + decimal(state.seen_ann@.len())) + ",\"seen_episodes\":"@) + decimal(state.seen_anilist@.len())), "}}"@, "errors"@, v);
}

proof fn lemma_metrics_last_check(state: AppState)
    ensures
        json_member(metrics_json(state), "last_check"@, json_opt_str(state.stats.last_check)),
{
    reveal_strlit(",\"last_check\":");
    reveal_strlit(",\"seen_articles\":");
    reveal_strlit("last_check");
    let v = json_opt_str(state.stats.last_check);
    assert(",\"last_check\":"@ =~= seq![','] + (seq!['"'] + "last_check"@ + seq!['"', ':']));
    assert(",\"seen_articles\":"@[0] == ',');
    let core = ",\"last_check\":"@ + v + ",\"seen_articles\":"@;
    assert(core =~= seq![','] + (seq!['"'] + "last_check"@ + seq!['"', ':']) + v + ",\"seen_articles\":"@);
    lemma_member_at(core, seq![','], "last_check"@, v, ",\"seen_articles\":"@);
    lemma_member_extend(core, ((((("{\"metrics\":{\"articles_sent\":"@ + decimal(state.stats.total_articles_sent as nat)) + ",\"episodes_sent\":"@) + decimal(state.stats.total_episodes_sent as nat)) + ",\"errors\":"@) + decimal(state.stats.total_errors as nat)), "last_check"@, v);
    assert((((((((("{\"metrics\":{\"articles_sent\":"@ + decimal(state.stats.total_articles_sent as nat)) + ",\"episodes_sent\":"@) + decimal(state.stats.total_episodes_sent as nat)) + ",\"errors\":"@) + decimal(state.stats.total_errors as nat)) + ",\"last_check\":"@) + json_opt_str(state.stats.last_check)) + ",\"seen_articles\":"@) =~= ((((("{\"metrics\":{\"articles_sent\":"@ + decimal(state.stats.total_articles_sent as nat)) + ",\"episodes_sent\":"@) + decimal(state.stats.total_episodes_sent as nat)) + ",\"errors\":"@) + decimal(state.stats.total_errors as nat)) + core);
    lemma_member_extend((((((((("{\"metrics\":{\"articles_sent\":"@ + decimal(state.stats.total_articles_sent as nat)) + ",\"episodes_sent\":"@) + decimal(state.stats.total_episodes_sent as nat)) + ",\"errors\":"@) + decimal(state.stats.total_errors as nat)) + ",\"last_check\":"@) + json_opt_str(state.stats.last_check)) + ",\"seen_articles\":"@), decimal(state.seen_ann@.len()), "last_check"@, v);
    lemma_member_extend(((((((((("{\"metrics\":{\"articles_sent\":"@ + decimal(state.stats.total_articles_sent as nat)) + ",\"episodes_sent\":"@) + decimal(state.stats.total_episodes_sent as nat)) + ",\"errors\":"@) + decimal(state.stats.total_errors as nat)) + ",\"last_check\":"@) + json_opt_str(state.stats.last_check)) + ",\"seen_articles\":"@) + decimal(state.seen_ann@.len())), ",\"seen_episodes\":"@, "last_check"@, v);
    lemma_member_extend((((((((((("{\"metrics\":{\"articles_sent\":"@ + decimal(state.stats.total_articles_sent as nat)) + ",\"episodes_sent\":"@) + decimal(state.stats.total_episodes_sent as nat)) + ",\"errors\":"@) + decimal(state.stats.total_errors as nat)) + ",\"last_check\":"@) + json_opt_str(state.stats.last_check)) + ",\"seen_articles\":"@) + decimal(state.seen_ann@.len())) + ",\"seen_episodes\":"@), decimal(state.seen_anilist@.len()), "last_check"@, v);
    lemma_member_extend(((((((((((("{\"metrics\":{\"articles_sent\":"@ + decimal(state.stats.total_articles_sent as nat)) + ",\"episodes_sent\":"@) + decimal(state.stats.total_episodes_sent as nat)) + ",\"errors\":"@) + decimal(state.stats.total_errors as nat)) + ",\"last_check\":"@) + json_opt_str(state.stats.last_check)) + ",\"seen_articles\":"@) + decimal(state.seen_ann@.len())) + ",\"seen_episodes\":"@) + decimal(state.seen_anilist@.len())), "}}"@, "last_check"@, v);
}

proof fn lemma_metrics_seen_articles(state: AppState)
    ensures
        json_member(metrics_json(state), "seen_articles"@, decimal(state.seen_ann@.len())),
{
    reveal_strlit(",\"seen_articles\":");
    reveal_strlit(",\"seen_episodes\":");
    reveal_strlit("seen_articles");
    let v = decimal(state.seen_ann@.len());
    assert(",\"seen_articles\":"@ =~= seq![','] + (seq!['"'] + "seen_articles"@ + seq!['"', ':']));
    assert(",\"seen_episodes\":"@[0] == ',');
    let core = ",\"seen_articles\":"@ + v + ",\"seen_episodes\":"@;
    assert(core =~= seq![','] + (seq!['"'] + "seen_articles"@ + seq!['"', ':']) + v + ",\"seen_episodes\":"@);
    lemma_member_at(core, seq![','], "seen_articles"@, v, ",\"seen_episodes\":"@);
    lemma_member_extend(core, ((((((("{\"metrics\":{\"articles_sent\":"@ + decimal(state.stats.total_articles_sent as nat)) + ",\"episodes_sent\":"@) + decimal(state.stats.total_episodes_sent as nat)) + ",\"errors\":"@) + decimal(state.stats.total_errors as nat)) + ",\"last_check\":"@) + json_opt_str(state.stats.last_check)), "seen_articles"@, v);
    assert((((((((((("{\"metrics\":{\"articles_sent\":"@ + decimal(state.stats.total_articles_sent as nat)) + ",\"episodes_sent\":"@) + decimal(state.stats.total_episodes_sent as nat)) + ",\"errors\":"@) + decimal(state.stats.total_errors as nat)) + ",\"last_check\":"@) + json_opt_str(state.stats.last_check)) + ",\"seen_articles\":"@) + decimal(state.seen_ann@.len())) + ",\"seen_episodes\":"@) =~= ((((((("{\"metrics\":{\"articles_sent\":"@ + decimal(state.stats.total_articles_sent as nat)) + ",\"episodes_sent\":"@) + decimal(state.stats.total_episodes_sent as nat)) + ",\"errors\":"@) + decimal(state.stats.total_errors as nat)) + ",\"last_check\":"@) + json_opt_str(state.stats.last_check)) + core);
    lemma_member_extend((((((((((("{\"metrics\":{\"articles_sent\":"@ + decimal(state.stats.total_articles_sent as nat)) + ",\"episodes_sent\":"@) + decimal(state.stats.total_episodes_sent as nat)) + ",\"errors\":"@) + decimal(state.stats.total_errors as nat)) + ",\"last_check\":"@) + json_opt_str(state.stats.last_check)) + ",\"seen_articles\":"@) + decimal(state.seen_ann@.len())) + ",\"seen_episodes\":"@), decimal(state.seen_anilist@.len()), "seen_articles"@, v);
    lemma_member_extend(((((((((((("{\"metrics\":{\"articles_sent\":"@ + decimal(state.stats.total_articles_sent as nat)) + ",\"episodes_sent\":"@) + decimal(state.stats.total_episodes_sent as nat)) + ",\"errors\":"@) + decimal(state.stats.total_errors as nat)) + ",\"last_check\":"@) + json_opt_str(state.stats.last_check)) + ",\"seen_articles\":"@) + decimal(state.seen_ann@.len())) + ",\"seen_episodes\":"@) + decimal(state.seen_anilist@.len())), "}}"@, "seen_articles"@, v);
}

proof fn lemma_metrics_seen_episodes(state: AppState)
    ensures
        json_member(metrics_json(state), "seen_episodes"@, decimal(state.seen_anilist@.len())),
{
    reveal_strlit(",\"seen_episodes\":");
    reveal_strlit("}}");
    reveal_strlit("seen_episodes");
    let v = decimal(state.seen_anilist@.len());
    assert(",\"seen_episodes\":"@ =~= seq![','] + (seq!['"'] + "seen_episodes"@ + seq!['"', ':']));
    assert("}}"@[0] == '}');
    let core = ",\"seen_episodes\":"@ + v + "}}"@;
    assert(core =~= seq![','] + (seq!['"'] + "seen_episodes"@ + seq!['"', ':']) + v + "}}"@);
    lemma_member_at(core, seq![','], "seen_episodes"@, v, "}}"@);
    lemma_member_extend(core, ((((((((("{\"metrics\":{\"articles_sent\":"@ + decimal(state.stats.total_articles_sent as nat)) + ",\"episodes_sent\":"@) + decimal(state.stats.total_episodes_sent as nat)) + ",\"errors\":"@) + decimal(state.stats.total_errors as nat)) + ",\"last_check\":"@) + json_opt_str(state.stats.last_check)) + ",\"seen_articles\":"@) + decimal(state.seen_ann@.len())), "seen_episodes"@, v);
    assert((((((((((((("{\"metrics\":{\"articles_sent\":"@ + decimal(state.stats.total_articles_sent as nat)) + ",\"episodes_sent\":"@) + decimal(state.stats.total_episodes_sent as nat)) + ",\"errors\":"@) + decimal(state.stats.total_errors as nat)) + ",\"last_check\":"@) + json_opt_str(state.stats.last_check)) + ",\"seen_articles\":"@) + decimal(state.seen_ann@.len())) + ",\"seen_episodes\":"@) + decimal(state.seen_anilist@.len())) + "}}"@) =~= ((((((((("{\"metrics\":{\"articles_sent\":"@ + decimal(state.stats.total_articles_sent as nat)) + ",\"episodes_sent\":"@) + decimal(state.stats.total_episodes_sent as nat)) + ",\"errors\":"@) + decimal(state.stats.total_errors as nat)) + ",\"last_check\":"@) + json_opt_str(state.stats.last_check)) + ",\"seen_articles\":"@) + decimal(state.seen_ann@.len())) + core);
}

/// The `/metrics` reply reports each statistic of the state under its own
/// name: `articles_sent` the articles delivered, `episodes_sent` the
/// episodes delivered, `errors` the delivery errors, `last_check` the time
/// of the last check (or `null`), `seen_articles` and `seen_episodes` the
/// sizes of the remembered lists.
pub proof fn lemma_metrics_members(state: AppState)
    ensures
        json_member(metrics_json(state), "articles_sent"@, decimal(state.stats.total_articles_sent as nat)),
        json_member(metrics_json(state), "episodes_sent"@, decimal(state.stats.total_episodes_sent as nat)),
        json_member(metrics_json(state), "errors"@, decimal(state.stats.total_errors as nat)),
        json_member(metrics_json(state), "last_check"@, json_opt_str(state.stats.last_check)),
        json_member(metrics_json(state), "seen_articles"@, decimal(state.seen_ann@.len())),
        json_member(metrics_json(state), "seen_episodes"@, decimal(state.seen_anilist@.len())),
{
    lemma_metrics_articles_sent(state);
    lemma_metrics_episodes_sent(state);
    lemma_metrics_errors(state);
    lemma_metrics_last_check(state);
    lemma_metrics_seen_articles(state);
    lemma_metrics_seen_episodes(state);
}

proof fn lemma_stats_reply_seen_articles(state: AppState)
    ensures
        json_member(stats_reply_json(state), "seen_articles"@, decimal(state.seen_ann@.len())),
{
    reveal_strlit("{\"cache\":{\"seen_articles\":");
    reveal_strlit(",\"seen_episodes\":");
    reveal_strlit("seen_articles");
    reveal_strlit("{\"cache\":{");
    let v = decimal(state.seen_ann@.len());
    assert("{\"cache\":{\"seen_articles\":"@ =~= "{\"cache\":{"@ + (seq!['"'] + "seen_articles"@ + seq!['"', ':']));
    assert(",\"seen_episodes\":"@[0] == ',');
    let core = "{\"cache\":{\"seen_articles\":"@ + v + ",\"seen_episodes\":"@;
    assert(core =~= "{\"cache\":{"@ + (seq!['"'] + "seen_articles"@ + seq!['"', ':']) + v + ",\"seen_episodes\":"@);
    lemma_member_at(core, "{\"cache\":{"@, "seen_articles"@, v, ",\"seen_episodes\":"@);
    lemma_member_extend((("{\"cache\":{\"seen_articles\":"@ + decimal(state.seen_ann@.len())) + ",\"seen_episodes\":"@), decimal(state.seen_anilist@.len()), "seen_articles"@, v);
    lemma_member_extend(((("{\"cache\":{\"seen_articles\":"@ + decimal(state.seen_ann@.len())) + ",\"seen_episodes\":"@) + decimal(state.seen_anilist@.len())), "},\"initialized\":"@, "seen_articles"@, v);
    lemma_member_extend((((("{\"cache\":{\"seen_articles\":"@ + decimal(state.seen_ann@.len())) + ",\"seen_episodes\":"@) + decimal(state.seen_anilist@.len())) + "},\"initialized\":"@), json_bool(state.initialized), "seen_articles"@, v);
    lemma_member_extend(((((("{\"cache\":{\"seen_articles\":"@ + decimal(state.seen_ann@.len())) + ",\"seen_episodes\":"@) + decimal(state.seen_anilist@.len())) + "},\"initialized\":"@) + json_bool(state.initialized)), ",\"stats\":{\"articles_sent\":"@, "seen_articles"@, v);
    lemma_member_extend((((((("{\"cache\":{\"seen_articles\":"@ + decimal(state.seen_ann@.len())) + ",\"seen_episodes\":"@) + decimal(state.seen_anilist@.len())) + "},\"initialized\":"@) + json_bool(state.initialized)) + ",\"stats\":{\"articles_sent\":"@), decimal(state.stats.total_articles_sent as nat), "seen_articles"@, v);
    lemma_member_extend(((((((("{\"cache\":{\"seen_articles\":"@ + decimal(state.seen_ann@.len())) + ",\"seen_episodes\":"@) + decimal(state.seen_anilist@.len())) + "},\"initialized\":"@) + json_bool(state.initialized)) + ",\"stats\":{\"articles_sent\":"@) + decimal(state.stats.total_articles_sent as nat)), ",\"episodes_sent\":"@, "seen_articles"@, v);
    lemma_member_extend((((((((("{\"cache\":{\"seen_articles\":"@ + decimal(state.seen_ann@.len())) + ",\"seen_episodes\":"@) + decimal(state.seen_anilist@.len())) + "},\"initialized\":"@) + json_bool(state.initialized)) + ",\"stats\":{\"articles_sent\":"@) + decimal(state.stats.total_articles_sent as nat)) + ",\"episodes_sent\":"@), decimal(state.stats.total_episodes_sent as nat), "seen_articles"@, v);
    lemma_member_extend(((((((((("{\"cache\":{\"seen_articles\":"@ + decimal(state.seen_ann@.len())) + ",\"seen_episodes\":"@) + decimal(state.seen_anilist@.len())) + "},\"initialized\":"@) + json_bool(state.initialized)) + ",\"stats\":{\"articles_sent\":"@) + decimal(state.stats.total_articles_sent as nat)) + ",\"episodes_sent\":"@) + decimal(state.stats.total_episodes_sent as nat)), ",\"errors\":"@, "seen_articles"@, v);
    lemma_member_extend((((((((((("{\"cache\":{\"seen_articles\":"@ + decimal(state.seen_ann@.len())) + ",\"seen_episodes\":"@) + decimal(state.seen_anilist@.len())) + "},\"initialized\":"@) + json_bool(state.initialized)) + ",\"stats\":{\"articles_sent\":"@) + decimal(state.stats.total_articles_sent as nat)) + ",\"episodes_sent\":"@) + decimal(state.stats.total_episodes_sent as nat)) + ",\"errors\":"@), decimal(state.stats.total_errors as nat), "seen_articles"@, v);
    lemma_member_extend(((((((((((("{\"cache\":{\"seen_articles\":"@ + decimal(state.seen_ann@.len())) + ",\"seen_episodes\":"@) + decimal(state.seen_anilist@.len())) + "},\"initialized\":"@) + json_bool(state.initialized)) + ",\"stats\":{\"articles_sent\":"@) + decimal(state.stats.total_articles_sent as nat)) + ",\"episodes_sent\":"@) + decimal(state.stats.total_episodes_sent as nat)) + ",\"errors\":"@) + decimal(state.stats.total_errors as nat)), "}}"@, "seen_articles"@, v);
}

proof fn lemma_stats_reply_seen_episodes(state: AppState)
    ensures
        json_member(stats_reply_json(state), "seen_episodes"@, decimal(state.seen_anilist@.len())),
{
    reveal_strlit(",\"seen_episodes\":");
    reveal_strlit("},\"initialized\":");
    reveal_strlit("seen_episodes");
    let v = decimal(state.seen_anilist@.len());
    assert(",\"seen_episodes\":"@ =~= seq![','] + (seq!['"'] + "seen_episodes"@ + seq!['"', ':']));
    assert("},\"initialized\":"@[0] == '}');
    let core = ",\"seen_episodes\":"@ + v + "},\"initialized\":"@;
    assert(core =~= seq![','] + (seq!['"'] + "seen_episodes"@ + seq!['"', ':']) + v + "},\"initialized\":"@);
    lemma_member_at(core, seq![','], "seen_episodes"@, v, "},\"initialized\":"@);
    lemma_member_extend(core, ("{\"cache\":{\"seen_articles\":"@ + decimal(state.seen_ann@.len())), "seen_episodes"@, v);
    assert((((("{\"cache\":{\"seen_articles\":"@ + decimal(state.seen_ann@.len())) + ",\"seen_episodes\":"@) + decimal(state.seen_anilist@.len())) + "},\"initialized\":"@) =~= ("{\"cache\":{\"seen_articles\":"@ + decimal(state.seen_ann@.len())) + core);
    lemma_member_extend((((("{\"cache\":{\"seen_articles\":"@ + decimal(state.seen_ann@.len())) + ",\"seen_episodes\":"@) + decimal(state.seen_anilist@.len())) + "},\"initialized\":"@), json_bool(state.initialized), "seen_episodes"@, v);
    lemma_member_extend(((((("{\"cache\":{\"seen_articles\":"@ + decimal(state.seen_ann@.len())) + ",\"seen_episodes\":"@) + decimal(state.seen_anilist@.len())) + "},\"initialized\":"@) + json_bool(state.initialized)), ",\"stats\":{\"articles_sent\":"@, "seen_episodes"@, v);
    lemma_member_extend((((((("{\"cache\":{\"seen_articles\":"@ + decimal(state.seen_ann@.len())) + ",\"seen_episodes\":"@) + decimal(state.seen_anilist@.len())) + "},\"initialized\":"@) + json_bool(state.initialized)) + ",\"stats\":{\"articles_sent\":"@), decimal(state.stats.total_articles_sent as nat), "seen_episodes"@, v);
    lemma_member_extend(((((((("{\"cache\":{\"seen_articles\":"@ + decimal(state.seen_ann@.len())) + ",\"seen_episodes\":"@) + decimal(state.seen_anilist@.len())) + "},\"initialized\":"@) + json_bool(state.initialized)) + ",\"stats\":{\"articles_sent\":"@) + decimal(state.stats.total_articles_sent as nat)), ",\"episodes_sent\":"@, "seen_episodes"@, v);
    lemma_member_extend((((((((("{\"cache\":{\"seen_articles\":"@ + decimal(state.seen_ann@.len())) + ",\"seen_episodes\":"@) + decimal(state.seen_anilist@.len())) + "},\"initialized\":"@) + json_bool(state.initialized)) + ",\"stats\":{\"articles_sent\":"@) + decimal(state.stats.total_articles_sent as nat)) + ",\"episodes_sent\":"@), decimal(state.stats.total_episodes_sent as nat), "seen_episodes"@, v);
    lemma_member_extend(((((((((("{\"cache\":{\"seen_articles\":"@ + decimal(state.seen_ann@.len())) + ",\"seen_episodes\":"@) + decimal(state.seen_anilist@.len())) + "},\"initialized\":"@) + json_bool(state.initialized)) + ",\"stats\":{\"articles_sent\":"@) + decimal(state.stats.total_articles_sent as nat)) + ",\"episodes_sent\":"@) + decimal(state.stats.total_episodes_sent as nat)), ",\"errors\":"@, "seen_episodes"@, v);
    lemma_member_extend((((((((((("{\"cache\":{\"seen_articles\":"@ + decimal(state.seen_ann@.len())) + ",\"seen_episodes\":"@) + decimal(state.seen_anilist@.len())) + "},\"initialized\":"@) + json_bool(state.initialized)) + ",\"stats\":{\"articles_sent\":"@) + decimal(state.stats.total_articles_sent as nat)) + ",\"episodes_sent\":"@) + decimal(state.stats.total_episodes_sent as nat)) + ",\"errors\":"@), decimal(state.stats.total_errors as nat), "seen_episodes"@, v);
    lemma_member_extend(((((((((((("{\"cache\":{\"seen_articles\":"@ + decimal(state.seen_ann@.len())) + ",\"seen_episodes\":"@) + decimal(state.seen_anilist@.len())) + "},\"initialized\":"@) + json_bool(state.initialized)) + ",\"stats\":{\"articles_sent\":"@) + decimal(state.stats.total_articles_sent as nat)) + ",\"episodes_sent\":"@) + decimal(state.stats.total_episodes_sent as nat)) + ",\"errors\":"@) + decimal(state.stats.total_errors as nat)), "}}"@, "seen_episodes"@, v);
}

proof fn lemma_stats_reply_initialized(state: AppState)
    ensures
        json_member(stats_reply_json(state), "initialized"@, json_bool(state.initialized)),
{
    reveal_strlit("},\"initialized\":");
    reveal_strlit(",\"stats\":{\"articles_sent\":");
    reveal_strlit("initialized");
    reveal_strlit("},");
    let v = json_bool(state.initialized);
    assert("},\"initialized\":"@ =~= "},"@ + (seq!['"'] + "initialized"@ + seq!['"', ':']));
    assert(",\"stats\":{\"articles_sent\":"@[0] == ',');
    let core = "},\"initialized\":"@ + v + ",\"stats\":{\"articles_sent\":"@;
    assert(core =~= "},"@ + (seq!['"'] + "initialized"@ + seq!['"', ':']) + v + ",\"stats\":{\"articles_sent\":"@);
    lemma_member_at(core, "},"@, "initialized"@, v, ",\"stats\":{\"articles_sent\":"@);
    lemma_member_extend(core, ((("{\"cache\":{\"seen_articles\":"@ + decimal(state.seen_ann@.len())) + ",\"seen_episodes\":"@) + decimal(state.seen_anilist@.len())), "initialized"@, v);
    assert((((((("{\"cache\":{\"seen_articles\":"@ + decimal(state.seen_ann@.len())) + ",\"seen_episodes\":"@) + decimal(state.seen_anilist@.len())) + "},\"initialized\":"@) + json_bool(state.initialized)) + ",\"stats\":{\"articles_sent\":"@) =~= ((("{\"cache\":{\"seen_articles\":"@ + decimal(state.seen_ann@.len())) + ",\"seen_episodes\":"@) + decimal(state.seen_anilist@.len())) + core);
    lemma_member_extend((((((("{\"cache\":{\"seen_articles\":"@ + decimal(state.seen_ann@.len())) + ",\"seen_episodes\":"@) + decimal(state.seen_anilist@.len())) + "},\"initialized\":"@) + json_bool(state.initialized)) + ",\"stats\":{\"articles_sent\":"@), decimal(state.stats.total_articles_sent as nat), "initialized"@, v);
    lemma_member_extend(((((((("{\"cache\":{\"seen_articles\":"@ + decimal(state.seen_ann@.len())) + ",\"seen_episodes\":"@) + decimal(state.seen_anilist@.len())) + "},\"initialized\":"@) + json_bool(state.initialized)) + ",\"stats\":{\"articles_sent\":"@) + decimal(state.stats.total_articles_sent as nat)), ",\"episodes_sent\":"@, "initialized"@, v);
    lemma_member_extend((((((((("{\"cache\":{\"seen_articles\":"@ + decimal(state.seen_ann@.len())) + ",\"seen_episodes\":"@) + decimal(state.seen_anilist@.len())) + "},\"initialized\":"@) + json_bool(state.initialized)) + ",\"stats\":{\"articles_sent\":"@) + decimal(state.stats.total_articles_sent as nat)) + ",\"episodes_sent\":"@), decimal(state.stats.total_episodes_sent as nat), "initialized"@, v);
    lemma_member_extend(((((((((("{\"cache\":{\"seen_articles\":"@ + decimal(state.seen_ann@.len())) + ",\"seen_episodes\":"@) + decimal(state.seen_anilist@.len())) + "},\"initialized\":"@) + json_bool(state.initialized)) + ",\"stats\":{\"articles_sent\":"@) + decimal(state.stats.total_articles_sent as nat)) + ",\"episodes_sent\":"@) + decimal(state.stats.total_episodes_sent as nat)), ",\"errors\":"@, "initialized"@, v);
    lemma_member_extend((((((((((("{\"cache\":{\"seen_articles\":"@ + decimal(state.seen_ann@.len())) + ",\"seen_episodes\":"@) + decimal(state.seen_anilist@.len())) + "},\"initialized\":"@) + json_bool(state.initialized)) + ",\"stats\":{\"articles_sent\":"@) + decimal(state.stats.total_articles_sent as nat)) + ",\"episodes_sent\":"@) + decimal(state.stats.total_episodes_sent as nat)) + ",\"errors\":"@), decimal(state.stats.total_errors as nat), "initialized"@, v);
    lemma_member_extend(((((((((((("{\"cache\":{\"seen_articles\":"@ + decimal(state.seen_ann@.len())) + ",\"seen_episodes\":"@) + decimal(state.seen_anilist@.len())) + "},\"initialized\":"@) + json_bool(state.initialized)) + ",\"stats\":{\"articles_sent\":"@) + decimal(state.stats.total_articles_sent as nat)) + ",\"episodes_sent\":"@) + decimal(state.stats.total_episodes_sent as nat)) + ",\"errors\":"@) + decimal(state.stats.total_errors as nat)), "}}"@, "initialized"@, v);
}

proof fn lemma_stats_reply_articles_sent(state: AppState)
    ensures
        json_member(stats_reply_json(state), "articles_sent"@, decimal(state.stats.total_articles_sent as nat)),
{
    reveal_strlit(",\"stats\":{\"articles_sent\":");
    reveal_strlit(",\"episodes_sent\":");
    reveal_strlit("articles_sent");
    reveal_strlit(",\"stats\":{");
    let v = decimal(state.stats.total_articles_sent as nat);
    assert(",\"stats\":{\"articles_sent\":"@ =~= ",\"stats\":{"@ + (seq!['"'] + "articles_sent"@ + seq!['"', ':']));
    assert(",\"episodes_sent\":"@[0] == ',');
    let core = ",\"stats\":{\"articles_sent\":"@ + v + ",\"episodes_sent\":"@;
    assert(core =~= ",\"stats\":{"@ + (seq!['"'] + "articles_sent"@ + seq!['"', ':']) + v + ",\"episodes_sent\":"@);
    lemma_member_at(core, ",\"stats\":{"@, "articles_sent"@, v, ",\"episodes_sent\":"@);
    lemma_member_extend(core, ((((("{\"cache\":{\"seen_articles\":"@ + decimal(state.seen_ann@.len())) + ",\"seen_episodes\":"@) + decimal(state.seen_anilist@.len())) + "},\"initialized\":"@) + json_bool(state.initialized)), "articles_sent"@, v);
    assert((((((((("{\"cache\":{\"seen_articles\":"@ + decimal(state.seen_ann@.len())) + ",\"seen_episodes\":"@) + decimal(state.seen_anilist@.len())) + "},\"initialized\":"@) + json_bool(state.initialized)) + ",\"stats\":{\"articles_sent\":"@) + decimal(state.stats.total_articles_sent as nat)) + ",\"episodes_sent\":"@) =~= ((((("{\"cache\":{\"seen_articles\":"@ + decimal(state.seen_ann@.len())) + ",\"seen_episodes\":"@) + decimal(state.seen_anilist@.len())) + "},\"initialized\":"@) + json_bool(state.initialized)) + core);
    lemma_member_extend((((((((("{\"cache\":{\"seen_articles\":"@ + decimal(state.seen_ann@.len())) + ",\"seen_episodes\":"@) + decimal(state.seen_anilist@.len())) + "},\"initialized\":"@) + json_bool(state.initialized)) + ",\"stats\":{\"articles_sent\":"@) + decimal(state.stats.total_articles_sent as nat)) + ",\"episodes_sent\":"@), decimal(state.stats.total_episodes_sent as nat), "articles_sent"@, v);
    lemma_member_extend(((((((((("{\"cache\":{\"seen_articles\":"@ + decimal(state.seen_ann@.len())) + ",\"seen_episodes\":"@) + decimal(state.seen_anilist@.len())) + "},\"initialized\":"@) + json_bool(state.initialized)) + ",\"stats\":{\"articles_sent\":"@) + decimal(state.stats.total_articles_sent as nat)) + ",\"episodes_sent\":"@) + decimal(state.stats.total_episodes_sent as nat)), ",\"errors\":"@, "articles_sent"@, v);
    lemma_member_extend((((((((((("{\"cache\":{\"seen_articles\":"@ + decimal(state.seen_ann@.len())) + ",\"seen_episodes\":"@) + decimal(state.seen_anilist@.len())) + "},\"initialized\":"@) + json_bool(state.initialized)) + ",\"stats\":{\"articles_sent\":"@) + decimal(state.stats.total_articles_sent as nat)) + ",\"episodes_sent\":"@) + decimal(state.stats.total_episodes_sent as nat)) + ",\"errors\":"@), decimal(state.stats.total_errors as nat), "articles_sent"@, v);
    lemma_member_extend(((((((((((("{\"cache\":{\"seen_articles\":"@ + decimal(state.seen_ann@.len())) + ",\"seen_episodes\":"@) + decimal(state.seen_anilist@.len())) + "},\"initialized\":"@) + json_bool(state.initialized)) + ",\"stats\":{\"articles_sent\":"@) + decimal(state.stats.total_articles_sent as nat)) + ",\"episodes_sent\":"@) + decimal(state.stats.total_episodes_sent as nat)) + ",\"errors\":"@) + decimal(state.stats.total_errors as nat)), "}}"@, "articles_sent"@, v);
}

proof fn lemma_stats_reply_episodes_sent(state: AppState)
    ensures
        json_member(stats_reply_json(state), "episodes_sent"@, decimal(state.stats.total_episodes_sent as nat)),
{
    reveal_strlit(",\"episodes_sent\":");
    reveal_strlit(",\"errors\":");
    reveal_strlit("episodes_sent");
    let v = decimal(state.stats.total_episodes_sent as nat);
    assert(",\"episodes_sent\":"@ =~= seq![','] + (seq!['"'] + "episodes_sent"@ + seq!['"', ':']));
    assert(",\"errors\":"@[0] == ',');
    let core = ",\"episodes_sent\":"@ + v + ",\"errors\":"@;
    assert(core =~= seq![','] + (seq!['"'] + "episodes_sent"@ + seq!['"', ':']) + v + ",\"errors\":"@);
    lemma_member_at(core, seq![','], "episodes_sent"@, v, ",\"errors\":"@);
    lemma_member_extend(core, ((((((("{\"cache\":{\"seen_articles\":"@ + decimal(state.seen_ann@.len())) + ",\"seen_episodes\":"@) + decimal(state.seen_anilist@.len())) + "},\"initialized\":"@) + json_bool(state.initialized)) + ",\"stats\":{\"articles_sent\":"@) + decimal(state.stats.total_articles_sent as nat)), "episodes_sent"@, v);
    assert((((((((((("{\"cache\":{\"seen_articles\":"@ + decimal(state.seen_ann@.len())) + ",\"seen_episodes\":"@) + decimal(state.seen_anilist@.len())) + "},\"initialized\":"@) + json_bool(state.initialized)) + ",\"stats\":{\"articles_sent\":"@) + decimal(state.stats.total_articles_sent as nat)) + ",\"episodes_sent\":"@) + decimal(state.stats.total_episodes_sent as nat)) + ",\"errors\":"@) =~= ((((((("{\"cache\":{\"seen_articles\":"@ + decimal(state.seen_ann@.len())) + ",\"seen_episodes\":"@) + decimal(state.seen_anilist@.len())) + "},\"initialized\":"@) + json_bool(state.initialized)) + ",\"stats\":{\"articles_sent\":"@) + decimal(state.stats.total_articles_sent as nat)) + core);
    lemma_member_extend((((((((((("{\"cache\":{\"seen_articles\":"@ + decimal(state.seen_ann@.len())) + ",\"seen_episodes\":"@) + decimal(state.seen_anilist@.len())) + "},\"initialized\":"@) + json_bool(state.initialized)) + ",\"stats\":{\"articles_sent\":"@) + decimal(state.stats.total_articles_sent as nat)) + ",\"episodes_sent\":"@) + decimal(state.stats.total_episodes_sent as nat)) + ",\"errors\":"@), decimal(state.stats.total_errors as nat), "episodes_sent"@, v);
    lemma_member_extend(((((((((((("{\"cache\":{\"seen_articles\":"@ + decimal(state.seen_ann@.len())) + ",\"seen_episodes\":"@) + decimal(state.seen_anilist@.len())) + "},\"initialized\":"@) + json_bool(state.initialized)) + ",\"stats\":{\"articles_sent\":"@) + decimal(state.stats.total_articles_sent as nat)) + ",\"episodes_sent\":"@) + decimal(state.stats.total_episodes_sent as nat)) + ",\"errors\":"@) + decimal(state.stats.total_errors as nat)), "}}"@, "episodes_sent"@, v);
}

proof fn lemma_stats_reply_errors(state: AppState)
    ensures
        json_member(stats_reply_json(state), "errors"@, decimal(state.stats.total_errors as nat)),
{
    reveal_strlit(",\"errors\":");
    reveal_strlit("}}");
    reveal_strlit("errors");
    let v = decimal(state.stats.total_errors as nat);
    assert(",\"errors\":"@ =~= seq![','] + (seq!['"'] + "errors"@ + seq!['"', ':']));
    assert("}}"@[0] == '}');
    let core = ",\"errors\":"@ + v + "}}"@;
    assert(core =~= seq![','] + (seq!['"'] + "errors"@ + seq!['"', ':']) + v + "}}"@);
    lemma_member_at(core, seq![','], "errors"@, v, "}}"@);
    lemma_member_extend(core, ((((((((("{\"cache\":{\"seen_articles\":"@ + decimal(state.seen_ann@.len())) + ",\"seen_episodes\":"@) + decimal(state.seen_anilist@.len())) + "},\"initialized\":"@) + json_bool(state.initialized)) + ",\"stats\":{\"articles_sent\":"@) + decimal(state.stats.total_articles_sent as nat)) + ",\"episodes_sent\":"@) + decimal(state.stats.total_episodes_sent as nat)), "errors"@, v);
    assert((((((((((((("{\"cache\":{\"seen_articles\":"@ + decimal(state.seen_ann@.len())) + ",\"seen_episodes\":"@) + decimal(state.seen_anilist@.len())) + "},\"initialized\":"@) + json_bool(state.initialized)) + ",\"stats\":{\"articles_sent\":"@) + decimal(state.stats.total_articles_sent as nat)) + ",\"episodes_sent\":"@) + decimal(state.stats.total_episodes_sent as nat)) + ",\"errors\":"@) + decimal(state.stats.total_errors as nat)) + "}}"@) =~= ((((((((("{\"cache\":{\"seen_articles\":"@ + decimal(state.seen_ann@.len())) + ",\"seen_episodes\":"@) + decimal(state.seen_anilist@.len())) + "},\"initialized\":"@) + json_bool(state.initialized)) + ",\"stats\":{\"articles_sent\":"@) + decimal(state.stats.total_articles_sent as nat)) + ",\"episodes_sent\":"@) + decimal(state.stats.total_episodes_sent as nat)) + core);
}

/// The `/stats` reply reports whether a first check was made under
/// `initialized`, the delivered articles and episodes and the delivery
/// errors under `articles_sent`, `episodes_sent` and `errors`, and the sizes
/// of the remembered lists under `seen_articles` and `seen_episodes`.
pub proof fn lemma_stats_reply_members(state: AppState)
    ensures
        json_member(stats_reply_json(state), "seen_articles"@, decimal(state.seen_ann@.len())),
        json_member(stats_reply_json(state), "seen_episodes"@, decimal(state.seen_anilist@.len())),
        json_member(stats_reply_json(state), "initialized"@, json_bool(state.initialized)),
        json_member(stats_reply_json(state), "articles_sent"@, decimal(state.stats.total_articles_sent as nat)),
        json_member(stats_reply_json(state), "episodes_sent"@, decimal(state.stats.total_episodes_sent as nat)),
        json_member(stats_reply_json(state), "errors"@, decimal(state.stats.total_errors as nat)),
{
    lemma_stats_reply_seen_articles(state);
    lemma_stats_reply_seen_episodes(state);
    lemma_stats_reply_initialized(state);
    lemma_stats_reply_articles_sent(state);
    lemma_stats_reply_episodes_sent(state);
    lemma_stats_reply_errors(state);
}

proof fn lemma_stats_json_articles_sent(st: Stats)
    ensures
        json_member(stats_json(st), "articles_sent"@, decimal(st.articles_sent as nat)),
{
    reveal_strlit("{\"articles_sent\":");
    reveal_strlit(",\"episodes_sent\":");
    reveal_strlit("articles_sent");
    let v = decimal(st.articles_sent as nat);
    assert("{\"articles_sent\":"@ =~= seq!['{'] + (seq!['"'] + "articles_sent"@ + seq!['"', ':']));
    assert(",\"episodes_sent\":"@[0] == ',');
    let core = "{\"articles_sent\":"@ + v + ",\"episodes_sent\":"@;
    assert(core =~= seq!['{'] + (seq!['"'] + "articles_sent"@ + seq!['"', ':']) + v + ",\"episodes_sent\":"@);
    lemma_member_at(core, seq!['{'], "articles_sent"@, v, ",\"episodes_sent\":"@);
    lemma_member_extend((("{\"articles_sent\":"@ + decimal(st.articles_sent as nat)) + ",\"episodes_sent\":"@), decimal(st.episodes_sent as nat), "articles_sent"@, v);
    lemma_member_extend(((("{\"articles_sent\":"@ + decimal(st.articles_sent as nat)) + ",\"episodes_sent\":"@) + decimal(st.episodes_sent as nat)), ",\"errors\":"@, "articles_sent"@, v);
    lemma_member_extend((((("{\"articles_sent\":"@ + decimal(st.articles_sent as nat)) + ",\"episodes_sent\":"@) + decimal(st.episodes_sent as nat)) + ",\"errors\":"@), decimal(st.errors as nat), "articles_sent"@, v);
    lemma_member_extend(((((("{\"articles_sent\":"@ + decimal(st.articles_sent as nat)) + ",\"episodes_sent\":"@) + decimal(st.episodes_sent as nat)) + ",\"errors\":"@) + decimal(st.errors as nat)), ",\"seen_articles\":"@, "articles_sent"@, v);
    lemma_member_extend((((((("{\"articles_sent\":"@ + decimal(st.articles_sent as nat)) + ",\"episodes_sent\":"@) + decimal(st.episodes_sent as nat)) + ",\"errors\":"@) + decimal(st.errors as nat)) + ",\"seen_articles\":"@), decimal(st.seen_articles as nat), "articles_sent"@, v);
    lemma_member_extend(((((((("{\"articles_sent\":"@ + decimal(st.articles_sent as nat)) + ",\"episodes_sent\":"@) + decimal(st.episodes_sent as nat)) + ",\"errors\":"@) + decimal(st.errors as nat)) + ",\"seen_articles\":"@) + decimal(st.seen_articles as nat)), ",\"seen_episodes\":"@, "articles_sent"@, v);
    lemma_member_extend((((((((("{\"articles_sent\":"@ + decimal(st.articles_sent as nat)) + ",\"episodes_sent\":"@) + decimal(st.episodes_sent as nat)) + ",\"errors\":"@) + decimal(st.errors as nat)) + ",\"seen_articles\":"@) + decimal(st.seen_articles as nat)) + ",\"seen_episodes\":"@), decimal(st.seen_episodes as nat), "articles_sent"@, v);
    lemma_member_extend(((((((((("{\"articles_sent\":"@ + decimal(st.articles_sent as nat)) + ",\"episodes_sent\":"@) + decimal(st.episodes_sent as nat)) + ",\"errors\":"@) + decimal(st.errors as nat)) + ",\"seen_articles\":"@) + decimal(st.seen_articles as nat)) + ",\"seen_episodes\":"@) + decimal(st.seen_episodes as nat)), ",\"last_check\":"@, "articles_sent"@, v);
    lemma_member_extend((((((((((("{\"articles_sent\":"@ + decimal(st.articles_sent as nat)) + ",\"episodes_sent\":"@) + decimal(st.episodes_sent as nat)) + ",\"errors\":"@) + decimal(st.errors as nat)) + ",\"seen_articles\":"@) + decimal(st.seen_articles as nat)) + ",\"seen_episodes\":"@) + decimal(st.seen_episodes as nat)) + ",\"last_check\":"@), json_opt_str(st.last_check), "articles_sent"@, v);
    lemma_member_extend(((((((((((("{\"articles_sent\":"@ + decimal(st.articles_sent as nat)) + ",\"episodes_sent\":"@) + decimal(st.episodes_sent as nat)) + ",\"errors\":"@) + decimal(st.errors as nat)) + ",\"seen_articles\":"@) + decimal(st.seen_articles as nat)) + ",\"seen_episodes\":"@) + decimal(st.seen_episodes as nat)) + ",\"last_check\":"@) + json_opt_str(st.last_check)), "}"@, "articles_sent"@, v);
}

proof fn lemma_stats_json_episodes_sent(st: Stats)
    ensures
        json_member(stats_json(st), "episodes_sent"@, decimal(st.episodes_sent as nat)),
{
    reveal_strlit(",\"episodes_sent\":");
    reveal_strlit(",\"errors\":");
    reveal_strlit("episodes_sent");
    let v = decimal(st.episodes_sent as nat);
    assert(",\"episodes_sent\":"@ =~= seq![','] + (seq!['"'] + "episodes_sent"@ + seq!['"', ':']));
    assert(",\"errors\":"@[0] == ',');
    let core = ",\"episodes_sent\":"@ + v + ",\"errors\":"@;
    assert(core =~= seq![','] + (seq!['"'] + "episodes_sent"@ + seq!['"', ':']) + v + ",\"errors\":"@);
    lemma_member_at(core, seq![','], "episodes_sent"@, v, ",\"errors\":"@);
    lemma_member_extend(core, ("{\"articles_sent\":"@ + decimal(st.articles_sent as nat)), "episodes_sent"@, v);
    assert((((("{\"articles_sent\":"@ + decimal(st.articles_sent as nat)) + ",\"episodes_sent\":"@) + decimal(st.episodes_sent as nat)) + ",\"errors\":"@) =~= ("{\"articles_sent\":"@ + decimal(st.articles_sent as nat)) + core);
    lemma_member_extend((((("{\"articles_sent\":"@ + decimal(st.articles_sent as nat)) + ",\"episodes_sent\":"@) + decimal(st.episodes_sent as nat)) + ",\"errors\":"@), decimal(st.errors as nat), "episodes_sent"@, v);
    lemma_member_extend(((((("{\"articles_sent\":"@ + decimal(st.articles_sent as nat)) + ",\"episodes_sent\":"@) + decimal(st.episodes_sent as nat)) + ",\"errors\":"@) + decimal(st.errors as nat)), ",\"seen_articles\":"@, "episodes_sent"@, v);
    lemma_member_extend((((((("{\"articles_sent\":"@ + decimal(st.articles_sent as nat)) + ",\"episodes_sent\":"@) + decimal(st.episodes_sent as nat)) + ",\"errors\":"@) + decimal(st.errors as nat)) + ",\"seen_articles\":"@), decimal(st.seen_articles as nat), "episodes_sent"@, v);
    lemma_member_extend(((((((("{\"articles_sent\":"@ + decimal(st.articles_sent as nat)) + ",\"episodes_sent\":"@) + decimal(st.episodes_sent as nat)) + ",\"errors\":"@) + decimal(st.errors as nat)) + ",\"seen_articles\":"@) + decimal(st.seen_articles as nat)), ",\"seen_episodes\":"@, "episodes_sent"@, v);
    lemma_member_extend((((((((("{\"articles_sent\":"@ + decimal(st.articles_sent as nat)) + ",\"episodes_sent\":"@) + decimal(st.episodes_sent as nat)) + ",\"errors\":"@) + decimal(st.errors as nat)) + ",\"seen_articles\":"@) + decimal(st.seen_articles as nat)) + ",\"seen_episodes\":"@), decimal(st.seen_episodes as nat), "episodes_sent"@, v);
    lemma_member_extend(((((((((("{\"articles_sent\":"@ + decimal(st.articles_sent as nat)) + ",\"episodes_sent\":"@) + decimal(st.episodes_sent as nat)) + ",\"errors\":"@) + decimal(st.errors as nat)) + ",\"seen_articles\":"@) + decimal(st.seen_articles as nat)) + ",\"seen_episodes\":"@) + decimal(st.seen_episodes as nat)), ",\"last_check\":"@, "episodes_sent"@, v);
    lemma_member_extend((((((((((("{\"articles_sent\":"@ + decimal(st.articles_sent as nat)) + ",\"episodes_sent\":"@) + decimal(st.episodes_sent as nat)) + ",\"errors\":"@) + decimal(st.errors as nat)) + ",\"seen_articles\":"@) + decimal(st.seen_articles as nat)) + ",\"seen_episodes\":"@) + decimal(st.seen_episodes as nat)) + ",\"last_check\":"@), json_opt_str(st.last_check), "episodes_sent"@, v);
    lemma_member_extend(((((((((((("{\"articles_sent\":"@ + decimal(st.articles_sent as nat)) + ",\"episodes_sent\":"@) + decimal(st.episodes_sent as nat)) + ",\"errors\":"@) + decimal(st.errors as nat)) + ",\"seen_articles\":"@) + decimal(st.seen_articles as nat)) + ",\"seen_episodes\":"@) + decimal(st.seen_episodes as nat)) + ",\"last_check\":"@) + json_opt_str(st.last_check)), "}"@, "episodes_sent"@, v);
}

proof fn lemma_stats_json_errors(st: Stats)
    ensures
        json_member(stats_json(st), "errors"@, decimal(st.errors as nat)),
{
    reveal_strlit(",\"errors\":");
    reveal_strlit(",\"seen_articles\":");
    reveal_strlit("errors");
    let v = decimal(st.errors as nat);
    assert(",\"errors\":"@ =~= seq![','] + (seq!['"'] + "errors"@ + seq!['"', ':']));
    assert(",\"seen_articles\":"@[0] == ',');
    let core = ",\"errors\":"@ + v + ",\"seen_articles\":"@;
    assert(core =~= seq![','] + (seq!['"'] + "errors"@ + seq!['"', ':']) + v + ",\"seen_articles\":"@);
    lemma_member_at(core, seq![','], "errors"@, v, ",\"seen_articles\":"@);
    lemma_member_extend(core, ((("{\"articles_sent\":"@ + decimal(st.articles_sent as nat)) + ",\"episodes_sent\":"@) + decimal(st.episodes_sent as nat)), "errors"@, v);
    assert((((((("{\"articles_sent\":"@ + decimal(st.articles_sent as nat)) + ",\"episodes_sent\":"@) + decimal(st.episodes_sent as nat)) + ",\"errors\":"@) + decimal(st.errors as nat)) + ",\"seen_articles\":"@) =~= ((("{\"articles_sent\":"@ + decimal(st.articles_sent as nat)) + ",\"episodes_sent\":"@) + decimal(st.episodes_sent as nat)) + core);
    lemma_member_extend((((((("{\"articles_sent\":"@ + decimal(st.articles_sent as nat)) + ",\"episodes_sent\":"@) + decimal(st.episodes_sent as nat)) + ",\"errors\":"@) + decimal(st.errors as nat)) + ",\"seen_articles\":"@), decimal(st.seen_articles as nat), "errors"@, v);
    lemma_member_extend(((((((("{\"articles_sent\":"@ + decimal(st.articles_sent as nat)) + ",\"episodes_sent\":"@) + decimal(st.episodes_sent as nat)) + ",\"errors\":"@) + decimal(st.errors as nat)) + ",\"seen_articles\":"@) + decimal(st.seen_articles as nat)), ",\"seen_episodes\":"@, "errors"@, v);
    lemma_member_extend((((((((("{\"articles_sent\":"@ + decimal(st.articles_sent as nat)) + ",\"episodes_sent\":"@) + decimal(st.episodes_sent as nat)) + ",\"errors\":"@) + decimal(st.errors as nat)) + ",\"seen_articles\":"@) + decimal(st.seen_articles as nat)) + ",\"seen_episodes\":"@), decimal(st.seen_episodes as nat), "errors"@, v);
    lemma_member_extend(((((((((("{\"articles_sent\":"@ + decimal(st.articles_sent as nat)) + ",\"episodes_sent\":"@) + decimal(st.episodes_sent as nat)) + ",\"errors\":"@) + decimal(st.errors as nat)) + ",\"seen_articles\":"@) + decimal(st.seen_articles as nat)) + ",\"seen_episodes\":"@) + decimal(st.seen_episodes as nat)), ",\"last_check\":"@, "errors"@, v);
    lemma_member_extend((((((((((("{\"articles_sent\":"@ + decimal(st.articles_sent as nat)) + ",\"episodes_sent\":"@) + decimal(st.episodes_sent as nat)) + ",\"errors\":"@) + decimal(st.errors as nat)) + ",\"seen_articles\":"@) + decimal(st.seen_articles as nat)) + ",\"seen_episodes\":"@) + decimal(st.seen_episodes as nat)) + ",\"last_check\":"@), json_opt_str(st.last_check), "errors"@, v);
    lemma_member_extend(((((((((((("{\"articles_sent\":"@ + decimal(st.articles_sent as nat)) + ",\"episodes_sent\":"@) + decimal(st.episodes_sent as nat)) + ",\"errors\":"@) + decimal(st.errors as nat)) + ",\"seen_articles\":"@) + decimal(st.seen_articles as nat)) + ",\"seen_episodes\":"@) + decimal(st.seen_episodes as nat)) + ",\"last_check\":"@) + json_opt_str(st.last_check)), "}"@, "errors"@, v);
}

proof fn lemma_stats_json_seen_articles(st: Stats)
    ensures
        json_member(stats_json(st), "seen_articles"@, decimal(st.seen_articles as nat)),
{
    reveal_strlit(",\"seen_articles\":");
    reveal_strlit(",\"seen_episodes\":");
    reveal_strlit("seen_articles");
    let v = decimal(st.seen_articles as nat);
    assert(",\"seen_articles\":"@ =~= seq![','] + (seq!['"'] + "seen_articles"@ + seq!['"', ':']));
    assert(",\"seen_episodes\":"@[0] == ',');
    let core = ",\"seen_articles\":"@ + v + ",\"seen_episodes\":"@;
    assert(core =~= seq![','] + (seq!['"'] + "seen_articles"@ + seq!['"', ':']) + v + ",\"seen_episodes\":"@);
    lemma_member_at(core, seq![','], "seen_articles"@, v, ",\"seen_episodes\":"@);
    lemma_member_extend(core, ((((("{\"articles_sent\":"@ + decimal(st.articles_sent as nat)) + ",\"episodes_sent\":"@) + decimal(st.episodes_sent as nat)) + ",\"errors\":"@) + decimal(st.errors as nat)), "seen_articles"@, v);
    assert((((((((("{\"articles_sent\":"@ + decimal(st.articles_sent as nat)) + ",\"episodes_sent\":"@) + decimal(st.episodes_sent as nat)) + ",\"errors\":"@) + decimal(st.errors as nat)) + ",\"seen_articles\":"@) + decimal(st.seen_articles as nat)) + ",\"seen_episodes\":"@) =~= ((((("{\"articles_sent\":"@ + decimal(st.articles_sent as nat)) + ",\"episodes_sent\":"@) + decimal(st.episodes_sent as nat)) + ",\"errors\":"@) + decimal(st.errors as nat)) + core);
    lemma_member_extend((((((((("{\"articles_sent\":"@ + decimal(st.articles_sent as nat)) + ",\"episodes_sent\":"@) + decimal(st.episodes_sent as nat)) + ",\"errors\":"@) + decimal(st.errors as nat)) + ",\"seen_articles\":"@) + decimal(st.seen_articles as nat)) + ",\"seen_episodes\":"@), decimal(st.seen_episodes as nat), "seen_articles"@, v);
    lemma_member_extend(((((((((("{\"articles_sent\":"@ + decimal(st.articles_sent as nat)) + ",\"episodes_sent\":"@) + decimal(st.episodes_sent as nat)) + ",\"errors\":"@) + decimal(st.errors as nat)) + ",\"seen_articles\":"@) + decimal(st.seen_articles as nat)) + ",\"seen_episodes\":"@) + decimal(st.seen_episodes as nat)), ",\"last_check\":"@, "seen_articles"@, v);
    lemma_member_extend((((((((((("{\"articles_sent\":"@ + decimal(st.articles_sent as nat)) + ",\"episodes_sent\":"@) + decimal(st.episodes_sent as nat)) + ",\"errors\":"@) + decimal(st.errors as nat)) + ",\"seen_articles\":"@) + decimal(st.seen_articles as nat)) + ",\"seen_episodes\":"@) + decimal(st.seen_episodes as nat)) + ",\"last_check\":"@), json_opt_str(st.last_check), "seen_articles"@, v);
    lemma_member_extend(((((((((((("{\"articles_sent\":"@ + decimal(st.articles_sent as nat)) + ",\"episodes_sent\":"@) + decimal(st.episodes_sent as nat)) + ",\"errors\":"@) + decimal(st.errors as nat)) + ",\"seen_articles\":"@) + decimal(st.seen_articles as nat)) + ",\"seen_episodes\":"@) + decimal(st.seen_episodes as nat)) + ",\"last_check\":"@) + json_opt_str(st.last_check)), "}"@, "seen_articles"@, v);
}

proof fn lemma_stats_json_seen_episodes(st: Stats)
    ensures
        json_member(stats_json(st), "seen_episodes"@, decimal(st.seen_episodes as nat)),
{
    reveal_strlit(",\"seen_episodes\":");
    reveal_strlit(",\"last_check\":");
    reveal_strlit("seen_episodes");
    let v = decimal(st.seen_episodes as nat);
    assert(",\"seen_episodes\":"@ =~= seq![','] + (seq!['"'] + "seen_episodes"@ + seq!['"', ':']));
    assert(",\"last_check\":"@[0] == ',');
    let core = ",\"seen_episodes\":"@ + v + ",\"last_check\":"@;
    assert(core =~= seq![','] + (seq!['"'] + "seen_episodes"@ + seq!['"', ':']) + v + ",\"last_check\":"@);
    lemma_member_at(core, seq![','], "seen_episodes"@, v, ",\"last_check\":"@);
    lemma_member_extend(core, ((((((("{\"articles_sent\":"@ + decimal(st.articles_sent as nat)) + ",\"episodes_sent\":"@) + decimal(st.episodes_sent as nat)) + ",\"errors\":"@) + decimal(st.errors as nat)) + ",\"seen_articles\":"@) + decimal(st.seen_articles as nat)), "seen_episodes"@, v);
    assert((((((((((("{\"articles_sent\":"@ + decimal(st.articles_sent as nat)) + ",\"episodes_sent\":"@) + decimal(st.episodes_sent as nat)) + ",\"errors\":"@) + decimal(st.errors as nat)) + ",\"seen_articles\":"@) + decimal(st.seen_articles as nat)) + ",\"seen_episodes\":"@) + decimal(st.seen_episodes as nat)) + ",\"last_check\":"@) =~= ((((((("{\"articles_sent\":"@ + decimal(st.articles_sent as nat)) + ",\"episodes_sent\":"@) + decimal(st.episodes_sent as nat)) + ",\"errors\":"@) + decimal(st.errors as nat)) + ",\"seen_articles\":"@) + decimal(st.seen_articles as nat)) + core);
    lemma_member_extend((((((((((("{\"articles_sent\":"@ + decimal(st.articles_sent as nat)) + ",\"episodes_sent\":"@) + decimal(st.episodes_sent as nat)) + ",\"errors\":"@) + decimal(st.errors as nat)) + ",\"seen_articles\":"@) + decimal(st.seen_articles as nat)) + ",\"seen_episodes\":"@) + decimal(st.seen_episodes as nat)) + ",\"last_check\":"@), json_opt_str(st.last_check), "seen_episodes"@, v);
    lemma_member_extend(((((((((((("{\"articles_sent\":"@ + decimal(st.articles_sent as nat)) + ",\"episodes_sent\":"@) + decimal(st.episodes_sent as nat)) + ",\"errors\":"@) + decimal(st.errors as nat)) + ",\"seen_articles\":"@) + decimal(st.seen_articles as nat)) + ",\"seen_episodes\":"@) + decimal(st.seen_episodes as nat)) + ",\"last_check\":"@) + json_opt_str(st.last_check)), "}"@, "seen_episodes"@, v);
}

proof fn lemma_stats_json_last_check(st: Stats)
    ensures
        json_member(stats_json(st), "last_check"@, json_opt_str(st.last_check)),
{
    reveal_strlit(",\"last_check\":");
    reveal_strlit("}");
    reveal_strlit("last_check");
    let v = json_opt_str(st.last_check);
    assert(",\"last_check\":"@ =~= seq![','] + (seq!['"'] + "last_check"@ + seq!['"', ':']));
    assert("}"@[0] == '}');
    let core = ",\"last_check\":"@ + v + "}"@;
    assert(core =~= seq![','] + (seq!['"'] + "last_check"@ + seq!['"', ':']) + v + "}"@);
    lemma_member_at(core, seq![','], "last_check"@, v, "}"@);
    lemma_member_extend(core, ((((((((("{\"articles_sent\":"@ + decimal(st.articles_sent as nat)) + ",\"episodes_sent\":"@) + decimal(st.episodes_sent as nat)) + ",\"errors\":"@) + decimal(st.errors as nat)) + ",\"seen_articles\":"@) + decimal(st.seen_articles as nat)) + ",\"seen_episodes\":"@) + decimal(st.seen_episodes as nat)), "last_check"@, v);
    assert((((((((((((("{\"articles_sent\":"@ + decimal(st.articles_sent as nat)) + ",\"episodes_sent\":"@) + decimal(st.episodes_sent as nat)) + ",\"errors\":"@) + decimal(st.errors as nat)) + ",\"seen_articles\":"@) + decimal(st.seen_articles as nat)) + ",\"seen_episodes\":"@) + decimal(st.seen_episodes as nat)) + ",\"last_check\":"@) + json_opt_str(st.last_check)) + "}"@) =~= ((((((((("{\"articles_sent\":"@ + decimal(st.articles_sent as nat)) + ",\"episodes_sent\":"@) + decimal(st.episodes_sent as nat)) + ",\"errors\":"@) + decimal(st.errors as nat)) + ",\"seen_articles\":"@) + decimal(st.seen_articles as nat)) + ",\"seen_episodes\":"@) + decimal(st.seen_episodes as nat)) + core);
}

/// The statistics of a health reply are reported each under its own
/// name: `articles_sent`, `episodes_sent`, `errors`, `seen_articles`,
/// `seen_episodes` and `last_check` (or `null`).
pub proof fn lemma_stats_json_members(st: Stats)
    ensures
        json_member(stats_json(st), "articles_sent"@, decimal(st.articles_sent as nat)),
        json_member(stats_json(st), "episodes_sent"@, decimal(st.episodes_sent as nat)),
        json_member(stats_json(st), "errors"@, decimal(st.errors as nat)),
        json_member(stats_json(st), "seen_articles"@, decimal(st.seen_articles as nat)),
        json_member(stats_json(st), "seen_episodes"@, decimal(st.seen_episodes as nat)),
        json_member(stats_json(st), "last_check"@, json_opt_str(st.last_check)),
{
    lemma_stats_json_articles_sent(st);
    lemma_stats_json_episodes_sent(st);
    lemma_stats_json_errors(st);
    lemma_stats_json_seen_articles(st);
    lemma_stats_json_seen_episodes(st);
    lemma_stats_json_last_check(st);
}

/// A health reply reports its status, version and uptime under `status`,
/// `version` and `uptime_seconds`, and holds its statistics, when it has
/// them, in full.
pub proof fn lemma_health_json_members(h: HealthResponse)
    ensures
        json_member(health_json(h), "status"@, json_str(h.status@)),
        json_member(health_json(h), "version"@, json_str(h.version@)),
        json_member(health_json(h), "uptime_seconds"@, decimal(h.uptime_seconds as nat)),
        h.stats matches Some(st) ==> health_json(h).subrange(
            health_json(h).len() - 1 - stats_json(st).len(),
            health_json(h).len() - 1,
        ) == stats_json(st),
{
    reveal_strlit("{\"status\":");
    reveal_strlit(",\"version\":");
    reveal_strlit(",\"uptime_seconds\":");
    reveal_strlit(",\"stats\":");
    reveal_strlit("}");
    reveal_strlit("status");
    reveal_strlit("version");
    reveal_strlit("uptime_seconds");
    let q = seq!['"'];
    let qc = seq!['"', ':'];
    let c = seq![','];
    let s1 = json_str(h.status@);
    let s2 = json_str(h.version@);
    let s3 = decimal(h.uptime_seconds as nat);
    let st_part = match h.stats {
        Some(st) => ",\"stats\":"@ + stats_json(st),
        None => Seq::empty(),
    };
    let m1 = q + "status"@ + qc;
    let m2 = q + "version"@ + qc;
    let m3 = q + "uptime_seconds"@ + qc;
    assert("{\"status\":"@ =~= seq!['{'] + m1);
    assert(",\"version\":"@ =~= c + m2);
    assert(",\"uptime_seconds\":"@ =~= c + m3);
    let rest3 = st_part + "}"@;
    assert(rest3.len() > 0 && (rest3[0] == ',' || rest3[0] == '}')) by {
        match h.stats {
            Some(st) => {
                assert(rest3[0] == ",\"stats\":"@[0]);
            },
            None => {
                assert(rest3 =~= "}"@);
            },
        }
    }
    let t = health_json(h);
    assert(t =~= seq!['{'] + m1 + s1 + (c + m2 + s2 + c + m3 + s3 + rest3));
    lemma_member_at(t, seq!['{'], "status"@, s1, c + m2 + s2 + c + m3 + s3 + rest3);
    assert(t =~= (seq!['{'] + m1 + s1 + c) + m2 + s2 + (c + m3 + s3 + rest3));
    lemma_member_at(t, seq!['{'] + m1 + s1 + c, "version"@, s2, c + m3 + s3 + rest3);
    assert(t =~= (seq!['{'] + m1 + s1 + c + m2 + s2 + c) + m3 + s3 + rest3);
    lemma_member_at(t, seq!['{'] + m1 + s1 + c + m2 + s2 + c, "uptime_seconds"@, s3, rest3);
    match h.stats {
        Some(st) => {
            assert(t.subrange(t.len() - 1 - stats_json(st).len(), t.len() - 1) =~= stats_json(st));
        },
        None => {},
    }
}

} // verus!
