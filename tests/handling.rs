use backslash_bot::error::{Provider, ProviderError};
use backslash_bot::handler::{on_message, on_outcome, provider_of, Reply, Step, FALLBACK_TEXT};
use backslash_bot::render::Response;
use backslash_bot::request::Request;

#[test]
fn plain_chat_is_ignored() {
    assert!(matches!(on_message("good morning"), Step::Ignore));
    assert!(matches!(on_message("d    "), Step::Ignore));
}

#[test]
fn commands_are_dispatched_to_their_provider() {
    match on_message("pm25 강남") {
        Step::Dispatch(q) => assert_eq!(provider_of(&q), Provider::AirQuality),
        Step::Ignore => panic!("expected a dispatch"),
    }
    let q = Request::HowToLookup { query: "x".to_string() };
    assert_eq!(provider_of(&q), Provider::HowTo);
    let q = Request::DictionaryLookup { term: "x".to_string() };
    assert_eq!(provider_of(&q), Provider::Dictionary);
}

#[test]
fn provider_failure_sends_only_the_fallback() {
    let err = ProviderError { source: Provider::HowTo, cause: "timed out".to_string() };
    match on_outcome(Err(err)) {
        Reply::Fallback(text) => assert_eq!(text, "._."),
        Reply::Embed(_) => panic!("a failure must not send a rendered reply"),
    }
    assert_eq!(FALLBACK_TEXT, "._.");
}

#[test]
fn provider_success_sends_the_rendered_reply() {
    let resp = Response::HowTo {
        title: "t".to_string(),
        link: "l".to_string(),
        instruction_text: "do it".to_string(),
    };
    match on_outcome(Ok(resp)) {
        Reply::Embed(p) => assert_eq!(p.description.as_deref(), Some("```\ndo it\n```")),
        Reply::Fallback(_) => panic!("expected the rendered reply"),
    }
}
