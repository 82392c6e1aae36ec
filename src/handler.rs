//! What the bot does with each message and with each service's outcome.

use vstd::prelude::*;
use crate::error::{Provider, ProviderError};
use crate::render::{render, render_spec, RenderedPayload, Response};
use crate::request::{parse, parse_spec, Request};

verus! {

/// The text sent in place of a reply when a service failed.
pub const FALLBACK_TEXT: &'static str = "._.";

/// What to do with an incoming message.
#[derive(Clone, Debug)]
pub enum Step {
    /// Not a command: nothing is sent.
    Ignore,
    /// Ask the service the request names.
    Dispatch(Request),
}

/// The one message sent back for a command.
#[derive(Clone, Debug)]
pub enum Reply {
    Embed(RenderedPayload),
    Fallback(String),
}

/// The service that answers a request.
pub open spec fn provider_spec(req: Request) -> Provider {
    match req {
        Request::DictionaryLookup { .. } => Provider::Dictionary,
        Request::AirQualityLookup { .. } => Provider::AirQuality,
        Request::HowToLookup { .. } => Provider::HowTo,
    }
}

/// The service that answers a request.
pub fn provider_of(req: &Request) -> (r: Provider)
    ensures
        r == provider_spec(*req),
{
    match req {
        Request::DictionaryLookup { .. } => Provider::Dictionary,
        Request::AirQualityLookup { .. } => Provider::AirQuality,
        Request::HowToLookup { .. } => Provider::HowTo,
    }
}

/// Decides what an incoming message asks for.
pub fn on_message(raw: &str) -> (r: Step)
    ensures
        r is Ignore <==> parse_spec(raw@) is None,
        r matches Step::Dispatch(q) ==> q.parsed_from(raw@),
{
    match parse(raw) {
        Some(q) => Step::Dispatch(q),
        None => Step::Ignore,
    }
}

/// The reply for a service's outcome: the rendered answer, or the fallback
/// text alone where the service failed.
pub fn on_outcome(outcome: Result<Response, ProviderError>) -> (r: Reply)
    ensures
        match outcome {
            Ok(resp) => r matches Reply::Embed(p) && p@ == render_spec(resp),
            Err(_) => r matches Reply::Fallback(t) && t@ == FALLBACK_TEXT@,
        },
{
    match outcome {
        Ok(resp) => Reply::Embed(render(&resp)),
        Err(_) => Reply::Fallback(FALLBACK_TEXT.to_string()),
    }
}

} // verus!
