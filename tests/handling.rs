use address_bot::{
    classify, handle_message, is_success, lookup_url, reply_for_outcome, reply_text, reply_to,
    Action, AddressLookupResult, Config, HttpOutcome, InboundMessage, ResponseBody,
};

fn config() -> Config {
    Config::new("42,-7,1000", "https://blockstream.info/api/address".to_string()).unwrap()
}

fn message(sender: i64, text: &str) -> InboundMessage {
    InboundMessage { sender_id: Some(sender), text: Some(text.to_string()) }
}

fn answered(status: u16, tx_count: Option<i64>) -> HttpOutcome {
    HttpOutcome::Answered { status, body: ResponseBody::Stats { tx_count } }
}

const DENIED: &str = "You do not have permission to use this bot.";
const ERROR: &str = "Error verifying address.";

#[test]
fn unknown_sender_is_denied_whatever_the_lookup() {
    let c = config();
    let msg = message(43, "bc1qexample");
    for outcome in [
        answered(200, Some(7)),
        answered(200, None),
        answered(404, None),
        HttpOutcome::Failed,
    ] {
        assert_eq!(reply_to(&c, &msg, &outcome), Some(DENIED.to_string()));
    }
}

#[test]
fn unknown_sender_gets_no_lookup() {
    match handle_message(&config(), &message(0, "bc1qexample")) {
        Action::Reply(t) => assert_eq!(t, DENIED),
        _ => panic!("expected the refusal"),
    }
}

#[test]
fn allowed_sender_gets_the_lookup_url() {
    match handle_message(&config(), &message(-7, "1BoatSLRHtKNngkdXEeobR76b53LETtpyT")) {
        Action::Lookup(url) => assert_eq!(
            url,
            "https://blockstream.info/api/address/1BoatSLRHtKNngkdXEeobR76b53LETtpyT"
        ),
        _ => panic!("expected a lookup"),
    }
}

#[test]
fn count_seven_is_attributed() {
    let r = reply_to(&config(), &message(42, "addr"), &answered(200, Some(7)));
    assert_eq!(r, Some("This address is attributed to: 7".to_string()));
}

#[test]
fn null_count_is_not_attributed() {
    let r = reply_to(&config(), &message(42, "addr"), &answered(200, None));
    assert_eq!(r, Some("This address is not attributed.".to_string()));
}

#[test]
fn not_found_status_is_an_error() {
    let r = reply_to(&config(), &message(1000, "addr"), &answered(404, Some(7)));
    assert_eq!(r, Some(ERROR.to_string()));
    let r = reply_to(&config(), &message(1000, "addr"), &answered(500, None));
    assert_eq!(r, Some(ERROR.to_string()));
}

#[test]
fn connection_failure_is_an_error() {
    let r = reply_to(&config(), &message(42, "addr"), &HttpOutcome::Failed);
    assert_eq!(r, Some(ERROR.to_string()));
}

#[test]
fn malformed_body_is_an_error() {
    let outcome = HttpOutcome::Answered { status: 200, body: ResponseBody::Malformed };
    assert_eq!(reply_to(&config(), &message(42, "addr"), &outcome), Some(ERROR.to_string()));
}

#[test]
fn same_message_twice_same_reply() {
    let c = config();
    let msg = message(42, "addr");
    let outcome = answered(200, Some(123456));
    let first = reply_to(&c, &msg, &outcome);
    let second = reply_to(&c, &msg, &outcome);
    assert_eq!(first, second);
    assert_eq!(first, Some("This address is attributed to: 123456".to_string()));
}

#[test]
fn empty_text_gets_nothing() {
    let c = config();
    assert!(matches!(handle_message(&c, &message(42, "")), Action::Ignore));
    assert!(matches!(handle_message(&c, &message(43, "")), Action::Ignore));
    assert_eq!(reply_to(&c, &message(42, ""), &answered(200, Some(7))), None);
}

#[test]
fn no_text_and_no_sender_gets_nothing() {
    let msg = InboundMessage { sender_id: None, text: None };
    assert!(matches!(handle_message(&config(), &msg), Action::Ignore));
}

#[test]
fn success_statuses_are_the_2xx_codes() {
    assert!(!is_success(199));
    assert!(is_success(200));
    assert!(is_success(204));
    assert!(is_success(299));
    assert!(!is_success(300));
    assert!(!is_success(404));
}

#[test]
fn classify_each_outcome() {
    assert_eq!(classify(&answered(200, Some(-3))), AddressLookupResult::Attributed(-3));
    assert_eq!(classify(&answered(201, None)), AddressLookupResult::NotAttributed);
    assert_eq!(classify(&answered(302, Some(1))), AddressLookupResult::NotFound);
    assert_eq!(classify(&HttpOutcome::Failed), AddressLookupResult::TransportError);
    let bad = HttpOutcome::Answered { status: 200, body: ResponseBody::Malformed };
    assert_eq!(classify(&bad), AddressLookupResult::TransportError);
}

#[test]
fn reply_text_of_each_result() {
    assert_eq!(reply_text(AddressLookupResult::Attributed(0)), "This address is attributed to: 0");
    assert_eq!(
        reply_text(AddressLookupResult::Attributed(i64::MIN)),
        "This address is attributed to: -9223372036854775808"
    );
    assert_eq!(reply_text(AddressLookupResult::NotAttributed), "This address is not attributed.");
    assert_eq!(reply_text(AddressLookupResult::NotFound), ERROR);
    assert_eq!(reply_text(AddressLookupResult::TransportError), ERROR);
    assert_eq!(reply_for_outcome(&answered(200, Some(88))), "This address is attributed to: 88");
}

#[test]
fn url_keeps_the_key_as_it_is() {
    assert_eq!(lookup_url("http://h/api", "a b/c"), "http://h/api/a b/c");
    assert_eq!(lookup_url("", ""), "/");
}
