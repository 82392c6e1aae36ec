//! Failures of the services behind the bot.

use vstd::prelude::*;

verus! {

/// A service the bot asks.
#[derive(Clone, Copy, Debug, PartialEq, Eq, Structural)]
pub enum Provider {
    Dictionary,
    AirQuality,
    HowTo,
}

/// A service could not be reached, or answered with something unreadable.
#[derive(Clone, Debug)]
pub struct ProviderError {
    pub source: Provider,
    pub cause: String,
}

} // verus!
