//! What the bot does with one incoming message.
use vstd::prelude::*;
use crate::config::{AllowList, ConfigError, parse_allowed_users_spec};
use crate::decimal::{decimal_int, format_i64};
use crate::lookup::{
    classify, classify_spec, is_success_status, lookup_url, lookup_url_spec, AddressLookupResult,
    HttpOutcome, ResponseBody,
};

verus! {

/// The reply to a user who is not on the allow list.
pub open spec fn denied_text() -> Seq<char> {
    "You do not have permission to use this bot."@
}

/// The reply for an address with no transaction count.
pub open spec fn not_attributed_text() -> Seq<char> {
    "This address is not attributed."@
}

/// The one reply for every failed lookup, whatever went wrong.
pub open spec fn lookup_error_text() -> Seq<char> {
    "Error verifying address."@
}

/// The text before the count in the reply for an attributed address.
pub open spec fn attributed_prefix() -> Seq<char> {
    "This address is attributed to: "@
}

/// The reply that a lookup result gives.
pub open spec fn reply_text_spec(result: AddressLookupResult) -> Seq<char> {
    match result {
        AddressLookupResult::Attributed(n) => attributed_prefix() + decimal_int(n as int),
        AddressLookupResult::NotAttributed => not_attributed_text(),
        AddressLookupResult::NotFound => lookup_error_text(),
        AddressLookupResult::TransportError => lookup_error_text(),
    }
}

/// The settings the bot runs with, read once at start.
pub struct Config {
    pub allowed: AllowList,
    pub api_base_url: String,
}

impl Config {
    /// Settings from the comma-separated list of allowed user identifiers and
    /// the base address of the lookup service. A malformed list is an error.
    pub fn new(allowed_users: &str, api_base_url: String) -> (r: Result<Config, ConfigError>)
        ensures
            r is Ok <==> parse_allowed_users_spec(allowed_users@) is Some,
            r matches Ok(c) ==> parse_allowed_users_spec(allowed_users@) == Some(c.allowed@)
                && c.api_base_url@ == api_base_url@,
    {
        match AllowList::parse(allowed_users) {
            Ok(allowed) => Ok(Config { allowed, api_base_url }),
            Err(e) => Err(e),
        }
    }
}

/// A message as the chat platform hands it over.
pub struct InboundMessage {
    /// The sender's identifier, where the platform could tell it.
    pub sender_id: Option<i64>,
    /// The text, where the message has one.
    pub text: Option<String>,
}

/// The text of a message; empty where it has none.
pub open spec fn text_of(msg: &InboundMessage) -> Seq<char> {
    match msg.text {
        Some(t) => t@,
        None => Seq::empty(),
    }
}

/// A message that is to be answered: one with a non-empty text. Such a
/// message must name its sender.
pub open spec fn wants_answer(msg: &InboundMessage) -> bool {
    text_of(msg).len() > 0
}

/// What to do next with a message.
pub enum Action {
    /// Send nothing.
    Ignore,
    /// Send this reply.
    Reply(String),
    /// Fetch this address, then reply as `reply_for_outcome` says.
    Lookup(String),
}

/// The reply, if any, to `msg` from a bot with the given allowed users, when
/// a lookup would end in `outcome`.
pub open spec fn respond_spec(
    allowed: Seq<i64>,
    msg: &InboundMessage,
    outcome: HttpOutcome,
) -> Option<Seq<char>> {
    if !wants_answer(msg) {
        None
    } else if !allowed.contains(msg.sender_id->0) {
        Some(denied_text())
    } else {
        Some(reply_text_spec(classify_spec(outcome)))
    }
}

/// The reply for a lookup result.
pub fn reply_text(result: AddressLookupResult) -> (r: String)
    ensures
        r@ == reply_text_spec(result),
{
    proof {
        reveal_strlit("This address is attributed to: ");
        reveal_strlit("This address is not attributed.");
        reveal_strlit("Error verifying address.");
    }
    match result {
        AddressLookupResult::Attributed(n) => {
            let digits = format_i64(n);
            String::from_str("This address is attributed to: ").concat(digits.as_str())
        },
        AddressLookupResult::NotAttributed => String::from_str("This address is not attributed."),
        AddressLookupResult::NotFound => String::from_str("Error verifying address."),
        AddressLookupResult::TransportError => String::from_str("Error verifying address."),
    }
}

/// The reply for the way a lookup ended.
pub fn reply_for_outcome(outcome: &HttpOutcome) -> (r: String)
    ensures
        r@ == reply_text_spec(classify_spec(*outcome)),
{
    reply_text(classify(outcome))
}

/// The first step with a message: nothing for a message without text, a
/// refusal for a sender who is not allowed, else the lookup of the text.
pub fn handle_message(config: &Config, msg: &InboundMessage) -> (r: Action)
    requires
        wants_answer(msg) ==> msg.sender_id is Some,
    ensures
        !wants_answer(msg) ==> r is Ignore,
        wants_answer(msg) && !config.allowed@.contains(msg.sender_id->0) ==> (r matches Action::Reply(
            t,
        ) && t@ == denied_text()),
        wants_answer(msg) && config.allowed@.contains(msg.sender_id->0) ==> (r matches Action::Lookup(
            url,
        ) && url@ == lookup_url_spec(config.api_base_url@, text_of(msg))),
{
    match &msg.text {
        None => Action::Ignore,
        Some(text) => {
            if text.as_str().unicode_len() == 0 {
                return Action::Ignore;
            }
            let sender = match msg.sender_id {
                Some(id) => id,
                // a message with text always names its sender (see `requires`)
                None => {
                    return Action::Ignore;
                },
            };
            if config.allowed.is_allowed(sender) {
                Action::Lookup(lookup_url(config.api_base_url.as_str(), text.as_str()))
            } else {
                proof {
                    reveal_strlit("You do not have permission to use this bot.");
                }
                Action::Reply(String::from_str("You do not have permission to use this bot."))
            }
        },
    }
}

/// The whole answer to `msg`, given how its lookup would end: `None` where
/// nothing is sent.
pub fn reply_to(config: &Config, msg: &InboundMessage, outcome: &HttpOutcome) -> (r: Option<
    String,
>)
    requires
        wants_answer(msg) ==> msg.sender_id is Some,
    ensures
        r is None <==> respond_spec(config.allowed@, msg, *outcome) is None,
        r matches Some(t) ==> respond_spec(config.allowed@, msg, *outcome) == Some(t@),
{
    match handle_message(config, msg) {
        Action::Ignore => None,
        Action::Reply(t) => Some(t),
        Action::Lookup(_) => Some(reply_for_outcome(outcome)),
    }
}

/// A sender who is not allowed gets the refusal to any message with text,
/// however the lookup would have ended.
pub proof fn law_denied_whatever_the_lookup(
    allowed: Seq<i64>,
    msg: &InboundMessage,
    outcome: HttpOutcome,
)
    requires
        wants_answer(msg),
        !allowed.contains(msg.sender_id->0),
    ensures
        respond_spec(allowed, msg, outcome) == Some(denied_text()),
{
}

/// An allowed sender whose lookup comes back with a success status and a
/// transaction count gets that count in decimal after the attributed prefix.
pub proof fn law_count_is_reported(
    allowed: Seq<i64>,
    msg: &InboundMessage,
    status: u16,
    count: i64,
)
    requires
        wants_answer(msg),
        allowed.contains(msg.sender_id->0),
        is_success_status(status),
    ensures
        respond_spec(
            allowed,
            msg,
            HttpOutcome::Answered { status, body: ResponseBody::Stats { tx_count: Some(count) } },
        ) == Some(attributed_prefix() + decimal_int(count as int)),
{
}

/// An allowed sender whose lookup comes back with a success status and a
/// null or absent count is told that the address is not attributed.
pub proof fn law_null_count_not_attributed(allowed: Seq<i64>, msg: &InboundMessage, status: u16)
    requires
        wants_answer(msg),
        allowed.contains(msg.sender_id->0),
        is_success_status(status),
    ensures
        respond_spec(
            allowed,
            msg,
            HttpOutcome::Answered { status, body: ResponseBody::Stats { tx_count: None } },
        ) == Some(not_attributed_text()),
{
}

/// An allowed sender whose lookup comes back with a status other than 2xx
/// gets the lookup error, whatever the body held.
pub proof fn law_error_status_is_lookup_error(
    allowed: Seq<i64>,
    msg: &InboundMessage,
    status: u16,
    body: ResponseBody,
)
    requires
        wants_answer(msg),
        allowed.contains(msg.sender_id->0),
        !is_success_status(status),
    ensures
        respond_spec(allowed, msg, HttpOutcome::Answered { status, body }) == Some(
            lookup_error_text(),
        ),
{
}

/// An allowed sender whose lookup gets no answer, or an answer whose body
/// cannot be read, gets the same lookup error.
pub proof fn law_failure_is_lookup_error(allowed: Seq<i64>, msg: &InboundMessage, status: u16)
    requires
        wants_answer(msg),
        allowed.contains(msg.sender_id->0),
    ensures
        respond_spec(allowed, msg, HttpOutcome::Failed) == Some(lookup_error_text()),
        respond_spec(allowed, msg, HttpOutcome::Answered { status, body: ResponseBody::Malformed })
            == Some(lookup_error_text()),
{
}

/// Handling the same message twice against a lookup that ends the same way
/// gives the same reply both times.
pub proof fn law_same_message_same_reply(
    allowed: Seq<i64>,
    msg: &InboundMessage,
    outcome: HttpOutcome,
    first: Option<Seq<char>>,
    second: Option<Seq<char>>,
)
    requires
        first == respond_spec(allowed, msg, outcome),
        second == respond_spec(allowed, msg, outcome),
    ensures
        first == second,
{
}

/// A message without text gets no reply, however the lookup would end.
pub proof fn law_no_text_no_reply(allowed: Seq<i64>, msg: &InboundMessage, outcome: HttpOutcome)
    requires
        text_of(msg).len() == 0,
    ensures
        respond_spec(allowed, msg, outcome) is None,
{
}

} // verus!
