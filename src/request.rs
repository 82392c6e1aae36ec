//! Commands: a trigger word, one space, and a payload.

use vstd::prelude::*;
use crate::text::{first_space, lemma_space_index_after_word, space_index, str_eq, trim, trim_blanks};

verus! {

/// Which service a command asks.
#[derive(Clone, Copy, Debug, PartialEq, Eq, Structural)]
pub enum Command {
    Dictionary,
    AirQuality,
    HowTo,
}

/// A parsed command with its payload.
#[derive(Clone, Debug)]
pub enum Request {
    DictionaryLookup { term: String },
    /// `pollutant` is the trigger word, which picks the pollutants to report.
    AirQualityLookup { pollutant: String, location: String },
    HowToLookup { query: String },
}

/// The command that a trigger word names, if any.
pub open spec fn command_of(t: Seq<char>) -> Option<Command> {
    if t == "d"@ || t == "D"@ || t == "dic"@ || t == "Dic"@ {
        Some(Command::Dictionary)
    } else if t == "air"@ || t == "pm"@ || t == "pm10"@ || t == "pm25"@ || t == "o3"@
        || t == "so2"@ || t == "no2"@ || t == "co"@ {
        Some(Command::AirQuality)
    } else if t == "h"@ || t == "H"@ || t == "howto"@ || t == "Howto"@ {
        Some(Command::HowTo)
    } else {
        None
    }
}

/// The word before the first space of a message.
pub open spec fn trigger_of(s: Seq<char>) -> Seq<char> {
    s.subrange(0, space_index(s))
}

/// What follows the first space of a message, trimmed.
pub open spec fn payload_of(s: Seq<char>) -> Seq<char> {
    trim(s.subrange(space_index(s) + 1, s.len() as int))
}

/// Whether a message starts with a trigger word followed by a space.
pub open spec fn has_trigger(s: Seq<char>) -> bool {
    space_index(s) < s.len() && command_of(trigger_of(s)) is Some
}

/// The command a message holds, with its trigger word and payload; `None`
/// where the message is no command or its payload is blank.
pub open spec fn parse_spec(s: Seq<char>) -> Option<(Command, Seq<char>, Seq<char>)> {
    if has_trigger(s) && payload_of(s).len() > 0 {
        Some((command_of(trigger_of(s)).unwrap(), trigger_of(s), payload_of(s)))
    } else {
        None
    }
}

impl Request {
    /// Whether this request is command `c` with trigger word `t` and payload `p`.
    pub open spec fn is_command(&self, c: Command, t: Seq<char>, p: Seq<char>) -> bool {
        match self {
            Request::DictionaryLookup { term } => c == Command::Dictionary && term@ == p,
            Request::AirQualityLookup { pollutant, location } => c == Command::AirQuality
                && pollutant@ == t && location@ == p,
            Request::HowToLookup { query } => c == Command::HowTo && query@ == p,
        }
    }

    /// Whether this request is what `parse_spec` gives for `s`.
    pub open spec fn parsed_from(&self, s: Seq<char>) -> bool {
        match parse_spec(s) {
            Some((c, t, p)) => self.is_command(c, t, p),
            None => false,
        }
    }
}

/// The command that a trigger word names, if any.
pub fn command_for(t: &str) -> (r: Option<Command>)
    ensures
        r == command_of(t@),
{
    if str_eq(t, "d") || str_eq(t, "D") || str_eq(t, "dic") || str_eq(t, "Dic") {
        Some(Command::Dictionary)
    } else if str_eq(t, "air") || str_eq(t, "pm") || str_eq(t, "pm10") || str_eq(t, "pm25")
        || str_eq(t, "o3") || str_eq(t, "so2") || str_eq(t, "no2") || str_eq(t, "co") {
        Some(Command::AirQuality)
    } else if str_eq(t, "h") || str_eq(t, "H") || str_eq(t, "howto") || str_eq(t, "Howto") {
        Some(Command::HowTo)
    } else {
        None
    }
}

/// Reads a command from a chat message; `None` where the message is none.
pub fn parse(raw: &str) -> (r: Option<Request>)
    ensures
        r is None <==> parse_spec(raw@) is None,
        r matches Some(q) ==> q.parsed_from(raw@),
{
    let n = raw.unicode_len();
    let i = first_space(raw);
    if i >= n {
        return None;
    }
    let trigger = raw.substring_char(0, i);
    let rest = raw.substring_char(i + 1, n);
    let payload = trim_blanks(rest);
    if payload.unicode_len() == 0 {
        return None;
    }
    match command_for(trigger) {
        Some(Command::Dictionary) => Some(Request::DictionaryLookup { term: payload.to_string() }),
        Some(Command::AirQuality) => Some(
            Request::AirQualityLookup {
                pollutant: trigger.to_string(),
                location: payload.to_string(),
            },
        ),
        Some(Command::HowTo) => Some(Request::HowToLookup { query: payload.to_string() }),
        None => None,
    }
}

/// No trigger word is empty or holds a space.
pub proof fn lemma_trigger_has_no_space(t: Seq<char>)
    requires
        command_of(t) is Some,
    ensures
        t.len() > 0,
        forall|j: int| 0 <= j < t.len() ==> t[j] != ' ',
{
    reveal_strlit("d");
    reveal_strlit("D");
    reveal_strlit("dic");
    reveal_strlit("Dic");
    reveal_strlit("air");
    reveal_strlit("pm");
    reveal_strlit("pm10");
    reveal_strlit("pm25");
    reveal_strlit("o3");
    reveal_strlit("so2");
    reveal_strlit("no2");
    reveal_strlit("co");
    reveal_strlit("h");
    reveal_strlit("H");
    reveal_strlit("howto");
    reveal_strlit("Howto");
}

/// A message that does not start with a trigger word and a space is no command.
pub proof fn lemma_untriggered_is_ignored(s: Seq<char>)
    requires
        !has_trigger(s),
    ensures
        parse_spec(s) is None,
{
}

/// A trigger word, a space and a payload make the trigger's command with the
/// trimmed payload; a payload that trims to nothing makes no command.
pub proof fn lemma_trigger_and_payload(t: Seq<char>, payload: Seq<char>)
    requires
        command_of(t) is Some,
    ensures
        trim(payload).len() > 0 ==> parse_spec(t + " "@ + payload) == Some(
            (command_of(t).unwrap(), t, trim(payload)),
        ),
        trim(payload).len() == 0 ==> parse_spec(t + " "@ + payload) is None,
{
    reveal_strlit(" ");
    let s = t + " "@ + payload;
    lemma_trigger_has_no_space(t);
    assert(s =~= t + (" "@ + payload));
    lemma_space_index_after_word(t, " "@ + payload);
    assert(trigger_of(s) =~= t);
    assert(s.subrange(t.len() as int + 1, s.len() as int) =~= payload);
}

} // verus!
