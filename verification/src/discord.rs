//! Delivery to Discord webhooks: the request URL and payload, the retry
//! and back-off decisions, and the webhook avatar.

use vstd::prelude::*;
use vstd::string::*;
use base64::Engine;
use crate::json::{json_str, push_json_str};
use crate::models::{Component, DiscordWebhookV2, COMPONENTS_V2_FLAG};
use crate::text::{contains_char, parse_u32, parse_unsigned};

verus! {

broadcast use vstd::string::group_string_axioms;

/// Retries after a first failed attempt to deliver one message.
pub const MAX_RETRIES: u32 = 3;

/// Attempts made to deliver one message: the first and its retries.
pub const MAX_ATTEMPTS: u32 = 4;

/// Attempts after which a message that Discord keeps rate-limiting is
/// given up.
pub const RATE_LIMIT_ATTEMPTS: u32 = 3;

/// Wait before the first retry, in milliseconds; it doubles each time.
pub const INITIAL_BACKOFF_MS: u64 = 1000;

/// HTTP status of a rate-limited request.
pub const TOO_MANY_REQUESTS: u16 = 429;

/// The URL a message is posted to: the webhook URL with
/// `with_components=true` added to its query.
pub open spec fn post_url_spec(webhook_url: Seq<char>) -> Seq<char> {
    if webhook_url.contains('?') {
        webhook_url + "&with_components=true"@
    } else {
        webhook_url + "?with_components=true"@
    }
}

/// The URL a message is posted to.
pub fn webhook_post_url(webhook_url: &str) -> (r: String)
    ensures
        r@ == post_url_spec(webhook_url@),
{
    let mut r = webhook_url.to_string();
    if contains_char(webhook_url, '?') {
        r.append("&with_components=true");
    } else {
        r.append("?with_components=true");
    }
    r
}

/// The message posted for `components`, sent under the name `username`.
pub fn webhook_payload(username: &str, components: Vec<Component>) -> (r: DiscordWebhookV2)
    ensures
        r.username@ == username@,
        r.avatar_url is None,
        r.flags == COMPONENTS_V2_FLAG,
        r.components == components,
{
    DiscordWebhookV2 {
        username: username.to_string(),
        avatar_url: None,
        flags: COMPONENTS_V2_FLAG,
        components,
    }
}

/// What one delivery attempt came to.
#[derive(Debug, Clone, Copy)]
pub enum AttemptOutcome {
    /// The request could not be sent or answered.
    NetworkError,
    /// Discord answered with this HTTP status.
    Response(u16),
}

/// Why a delivery failed.
#[derive(Debug, Clone, Copy)]
pub enum DeliveryFailure {
    /// The last attempt could not be sent or answered.
    Network,
    /// Discord refused the message with this status.
    Status(u16),
}

/// What to do after an attempt.
#[derive(Debug, Clone, Copy)]
pub enum DeliveryStep {
    /// The message was accepted.
    Delivered,
    /// Wait this many milliseconds, then try again.
    Backoff(u64),
    /// Wait as long as Discord's `Retry-After` asks (5 seconds when it does
    /// not say), then try again.
    RateLimited,
    /// Wait as long as `Retry-After` asks, then stop: the message was
    /// rate-limited on every attempt it was allowed.
    RateLimitedGiveUp,
    /// Stop: the message was not delivered.
    GiveUp(DeliveryFailure),
}

/// `2^n`.
pub open spec fn pow2(n: nat) -> nat
    decreases n,
{
    if n == 0 {
        1
    } else {
        2 * pow2((n - 1) as nat)
    }
}

/// Wait before retrying after attempt `attempt` (counted from 0).
pub open spec fn backoff_spec(attempt: nat) -> nat {
    (INITIAL_BACKOFF_MS * pow2(attempt)) as nat
}

/// Whether a status means success (2xx).
pub open spec fn is_success(status: u16) -> bool {
    200 <= status && status <= 299
}

/// Whether a status is a server error (5xx).
pub open spec fn is_server_error(status: u16) -> bool {
    500 <= status && status <= 599
}

/// The decision after attempt `attempt`: a rate-limited answer waits and
/// retries, except on the third attempt or later, where it waits and gives
/// up; success ends the delivery; a network failure or a server error
/// is retried after the back-off while retries are left (after attempts 0,
/// 1 and 2); any other answer fails the delivery.
pub open spec fn next_step_spec(attempt: nat, outcome: AttemptOutcome) -> DeliveryStep {
    match outcome {
        AttemptOutcome::NetworkError => if attempt < MAX_RETRIES {
            DeliveryStep::Backoff(backoff_spec(attempt) as u64)
        } else {
            DeliveryStep::GiveUp(DeliveryFailure::Network)
        },
        AttemptOutcome::Response(status) => if status == TOO_MANY_REQUESTS {
            if attempt + 1 < RATE_LIMIT_ATTEMPTS {
                DeliveryStep::RateLimited
            } else {
                DeliveryStep::RateLimitedGiveUp
            }
        } else if is_success(status) {
            DeliveryStep::Delivered
        } else if attempt < MAX_RETRIES && is_server_error(status) {
            DeliveryStep::Backoff(backoff_spec(attempt) as u64)
        } else {
            DeliveryStep::GiveUp(DeliveryFailure::Status(status))
        },
    }
}

/// The back-off starts at one second and doubles with each attempt.
pub proof fn lemma_backoff_doubles(attempt: nat)
    ensures
        backoff_spec(0) == INITIAL_BACKOFF_MS,
        backoff_spec(attempt + 1) == 2 * backoff_spec(attempt),
{
    assert(pow2(attempt + 1) == 2 * pow2(attempt));
    assert(INITIAL_BACKOFF_MS * (2 * pow2(attempt)) == 2 * (INITIAL_BACKOFF_MS * pow2(attempt))) by (nonlinear_arith);
}

/// A delivery never retries after its last attempt, except when asked to
/// wait by a rate limit: network failures and server errors are retried
/// only before the last attempt.
pub proof fn lemma_no_backoff_after_last_attempt(outcome: AttemptOutcome)
    ensures
        !(next_step_spec((MAX_ATTEMPTS - 1) as nat, outcome) is Backoff),
{
}

/// A message that Discord keeps rate-limiting is tried three times: each
/// answer waits as `Retry-After` asks, and the third gives up after its
/// wait.
pub proof fn lemma_rate_limit_schedule()
    ensures
        next_step_spec(0, AttemptOutcome::Response(TOO_MANY_REQUESTS)) is RateLimited,
        next_step_spec(1, AttemptOutcome::Response(TOO_MANY_REQUESTS)) is RateLimited,
        next_step_spec(2, AttemptOutcome::Response(TOO_MANY_REQUESTS)) is RateLimitedGiveUp,
{
}

/// A message that keeps failing with network errors or server errors is
/// tried four times: after the first three failures it waits 1 s, 2 s
/// and 4 s, and it gives up only after the fourth.
pub proof fn lemma_retry_schedule(outcome: AttemptOutcome)
    requires
        outcome is NetworkError || (outcome matches AttemptOutcome::Response(s)
            && is_server_error(s)),
    ensures
        next_step_spec(0, outcome) == DeliveryStep::Backoff(1000),
        next_step_spec(1, outcome) == DeliveryStep::Backoff(2000),
        next_step_spec(2, outcome) == DeliveryStep::Backoff(4000),
        next_step_spec(3, outcome) is GiveUp,
        MAX_ATTEMPTS == MAX_RETRIES + 1,
{
    reveal_with_fuel(pow2, 3);
}

/// Wait before retrying after attempt `attempt`: 1 s, then 2 s, then 4 s.
pub fn backoff_ms(attempt: u32) -> (r: u64)
    requires
        attempt < MAX_RETRIES,
    ensures
        r == backoff_spec(attempt as nat),
        attempt == 0 ==> r == 1000,
        attempt == 1 ==> r == 2000,
        attempt == 2 ==> r == 4000,
{
    assert(pow2(0) == 1 && pow2(1) == 2 && pow2(2) == 4) by {
        reveal_with_fuel(pow2, 3);
    }
    if attempt == 0 {
        INITIAL_BACKOFF_MS
    } else if attempt == 1 {
        INITIAL_BACKOFF_MS * 2
    } else {
        INITIAL_BACKOFF_MS * 4
    }
}

/// What to do after attempt `attempt` (counted from 0, at most
/// `MAX_ATTEMPTS` of them) came to `outcome`.
pub fn next_delivery_step(attempt: u32, outcome: AttemptOutcome) -> (r: DeliveryStep)
    requires
        attempt < MAX_ATTEMPTS,
    ensures
        r == next_step_spec(attempt as nat, outcome),
        (outcome is NetworkError || (outcome matches AttemptOutcome::Response(s)
            && is_server_error(s))) ==> (if attempt < MAX_RETRIES {
            r == DeliveryStep::Backoff(
                if attempt == 0 {
                    1000u64
                } else if attempt == 1 {
                    2000u64
                } else {
                    4000u64
                },
            )
        } else {
            r is GiveUp
        }),
        outcome == AttemptOutcome::Response(TOO_MANY_REQUESTS) ==> (if attempt + 1
            < RATE_LIMIT_ATTEMPTS {
            r is RateLimited
        } else {
            r is RateLimitedGiveUp
        }),
{
    match outcome {
        AttemptOutcome::NetworkError => {
            if attempt < MAX_RETRIES {
                DeliveryStep::Backoff(backoff_ms(attempt))
            } else {
                DeliveryStep::GiveUp(DeliveryFailure::Network)
            }
        },
        AttemptOutcome::Response(status) => {
            if status == TOO_MANY_REQUESTS {
                if attempt + 1 < RATE_LIMIT_ATTEMPTS {
                    DeliveryStep::RateLimited
                } else {
                    DeliveryStep::RateLimitedGiveUp
                }
            } else if 200 <= status && status <= 299 {
                DeliveryStep::Delivered
            } else if attempt < MAX_RETRIES && 500 <= status && status <= 599 {
                DeliveryStep::Backoff(backoff_ms(attempt))
            } else {
                DeliveryStep::GiveUp(DeliveryFailure::Status(status))
            }
        },
    }
}

/// Whether the `X-RateLimit-Remaining` header (when present) says the
/// rate-limit bucket is empty, so that the next request should wait for
/// `X-RateLimit-Reset-After`.
pub fn bucket_exhausted(remaining: Option<&str>) -> (r: bool)
    ensures
        r == (remaining matches Some(h) && parse_unsigned(h@, u32::MAX as nat) == Some(0nat)),
{
    match remaining {
        Some(h) => match parse_u32(h) {
            Some(v) => v == 0,
            None => false,
        },
        None => false,
    }
}

// ---------------------------------------------------------------------
// Webhook avatar
// ---------------------------------------------------------------------

/// A character of the standard base64 alphabet.
pub open spec fn b64_char(v: int) -> char {
    if v < 26 {
        (v + 65) as char
    } else if v < 52 {
        (v + 71) as char
    } else if v < 62 {
        (v - 4) as char
    } else if v == 62 {
        '+'
    } else {
        '/'
    }
}

/// Standard base64 (RFC 4648 alphabet, `=` padding): each group of three
/// bytes becomes four characters; a last group of one or two bytes is
/// padded.
pub open spec fn base64_std(b: Seq<u8>) -> Seq<char>
    decreases b.len(),
{
    if b.len() == 0 {
        Seq::empty()
    } else {
        let b0 = b[0] as int;
        let b1 = if b.len() > 1 {
            b[1] as int
        } else {
            0
        };
        let b2 = if b.len() > 2 {
            b[2] as int
        } else {
            0
        };
        if b.len() == 1 {
            seq![b64_char(b0 / 4), b64_char((b0 % 4) * 16), '=', '=']
        } else if b.len() == 2 {
            seq![b64_char(b0 / 4), b64_char((b0 % 4) * 16 + b1 / 16), b64_char((b1 % 16) * 4), '=']
        } else {
            seq![
                b64_char(b0 / 4),
                b64_char((b0 % 4) * 16 + b1 / 16),
                b64_char((b1 % 16) * 4 + b2 / 64),
                b64_char(b2 % 64),
            ] + base64_std(b.skip(3))
        }
    }
}

/// `base64::engine::general_purpose::STANDARD.encode`: standard base64
/// with padding, as the crate documents it. (It panics when the encoded
/// length would not fit in `usize`; the bound leaves that out.)
#[verifier::external_body]
fn base64_standard(bytes: &[u8]) -> (r: String)
    requires
        bytes@.len() <= usize::MAX / 4 * 3,
    ensures
        r@ == base64_std(bytes@),
{
    base64::engine::general_purpose::STANDARD.encode(bytes)
}

/// The avatar image as a PNG data URI.
pub open spec fn avatar_data_uri_spec(image: Seq<u8>) -> Seq<char> {
    "data:image/png;base64,"@ + base64_std(image)
}

/// The avatar image as a PNG data URI.
pub fn avatar_data_uri(image: &[u8]) -> (r: String)
    requires
        image@.len() <= usize::MAX / 4 * 3,
    ensures
        r@ == avatar_data_uri_spec(image@),
{
    let mut r = "data:image/png;base64,".to_string();
    r.append(base64_standard(image).as_str());
    r
}

/// The JSON body that sets a webhook's avatar to `image`.
pub fn avatar_payload(image: &[u8]) -> (r: String)
    requires
        image@.len() <= usize::MAX / 4 * 3,
    ensures
        r@ == "{\"avatar\":"@ + json_str(avatar_data_uri_spec(image@)) + "}"@,
{
    let uri = avatar_data_uri(image);
    let mut r = "{\"avatar\":".to_string();
    push_json_str(&mut r, uri.as_str());
    r.append("}");
    r
}

} // verus!
