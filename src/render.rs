//! Replies from the three services, and how each is laid out for the chat.

use vstd::prelude::*;
use crate::grade::{grade_label, Grade};
use crate::text::{join, join_strings, views};

verus! {

/// Most readings shown for one pollutant.
pub const RECENT_READINGS: usize = 5;

/// Most characters of an instruction shown.
pub const INSTRUCTION_LIMIT: usize = 1000;

/// One dictionary entry.
#[derive(Clone, Debug)]
pub struct WordEntry {
    pub headword: String,
    /// Set only where the word's language is not one of the dictionary's own.
    pub language_tag: Option<String>,
    pub pronunciation: Option<String>,
    pub meanings: Vec<String>,
}

/// One pollutant measured at a station.
#[derive(Clone, Debug)]
pub struct Pollutant {
    pub name: String,
    pub unit: String,
    pub grade: Grade,
    /// Each reading as decimal text, `None` where missing; the most recent last.
    pub recent_readings: Vec<Option<String>>,
}

/// What a service answered.
#[derive(Clone, Debug)]
pub enum Response {
    Dictionary { alternatives: Vec<String>, words: Vec<WordEntry> },
    AirPollution { station_address: String, observed_at: Option<String>, pollutants: Vec<Pollutant> },
    HowTo { title: String, link: String, instruction_text: String },
}

/// One named field of a reply.
#[derive(Clone, Debug)]
pub struct Field {
    pub name: String,
    pub value: String,
    pub inline: bool,
}

/// A reply laid out for the chat.
#[derive(Clone, Debug)]
pub struct RenderedPayload {
    pub title: Option<String>,
    pub url: Option<String>,
    pub description: Option<String>,
    pub fields: Vec<Field>,
    pub footer: Option<String>,
}

/// A field as characters: name, value, and whether it stands inline.
pub type FieldView = (Seq<char>, Seq<char>, bool);

/// A reply as characters.
pub struct PayloadView {
    pub title: Option<Seq<char>>,
    pub url: Option<Seq<char>>,
    pub description: Option<Seq<char>>,
    pub fields: Seq<FieldView>,
    pub footer: Option<Seq<char>>,
}

/// The characters of an optional string.
pub open spec fn opt_view(o: Option<String>) -> Option<Seq<char>> {
    match o {
        Some(s) => Some(s@),
        None => None,
    }
}

impl View for Field {
    type V = FieldView;

    open spec fn view(&self) -> FieldView {
        (self.name@, self.value@, self.inline)
    }
}

impl View for RenderedPayload {
    type V = PayloadView;

    open spec fn view(&self) -> PayloadView {
        PayloadView {
            title: opt_view(self.title),
            url: opt_view(self.url),
            description: opt_view(self.description),
            fields: self.fields@.map_values(|f: Field| f@),
            footer: opt_view(self.footer),
        }
    }
}

/// The description of a dictionary reply.
pub open spec fn dictionary_description(alternatives: Seq<Seq<char>>) -> Seq<char> {
    if alternatives.len() == 0 {
        Seq::empty()
    } else {
        "Did you mean...\n"@ + join(alternatives, ", "@)
    }
}

/// The field of one dictionary entry.
pub open spec fn word_field(w: WordEntry) -> FieldView {
    let name = match w.language_tag {
        Some(t) => w.headword@ + " "@ + t@,
        None => w.headword@,
    };
    let lead = match w.pronunciation {
        Some(p) => p@ + " "@,
        None => Seq::empty(),
    };
    (name, lead + join(views(w.meanings@), ", "@), false)
}

/// A reading as shown: its text, or `--` where it is missing.
pub open spec fn reading_text(o: Option<String>) -> Seq<char> {
    match o {
        Some(s) => s@,
        None => "--"@,
    }
}

/// The most recent readings, at most `RECENT_READINGS` of them, oldest first.
pub open spec fn recent(data: Seq<Option<String>>) -> Seq<Option<String>> {
    if data.len() > RECENT_READINGS {
        data.subrange(data.len() - RECENT_READINGS, data.len() as int)
    } else {
        data
    }
}

/// The recent readings joined by arrows.
pub open spec fn readings_line(data: Seq<Option<String>>) -> Seq<char> {
    join(recent(data).map_values(|o: Option<String>| reading_text(o)), " → "@)
}

/// The field of one pollutant.
pub open spec fn pollutant_field(p: Pollutant) -> FieldView {
    (
        p.name@,
        p.name@ + " ("@ + p.unit@ + "): "@ + readings_line(p.recent_readings@) + " "@
            + grade_label(p.grade),
        true,
    )
}

/// The description of an air-quality reply.
pub open spec fn air_description(address: Seq<char>, observed_at: Option<Seq<char>>) -> Seq<char> {
    match observed_at {
        Some(t) => address + ". "@ + t,
        None => address,
    }
}

/// The first `n` characters of `s`, or all of it where it is shorter.
pub open spec fn truncate(s: Seq<char>, n: nat) -> Seq<char> {
    if s.len() > n {
        s.subrange(0, n as int)
    } else {
        s
    }
}

/// The description of a how-to reply: the instruction as a literal block.
pub open spec fn howto_description(instruction: Seq<char>) -> Seq<char> {
    "```\n"@ + truncate(instruction, INSTRUCTION_LIMIT as nat) + "\n```"@
}

/// How a reply is laid out.
pub open spec fn render_spec(resp: Response) -> PayloadView {
    match resp {
        Response::Dictionary { alternatives, words } => PayloadView {
            title: None,
            url: None,
            description: Some(dictionary_description(views(alternatives@))),
            fields: words@.map_values(|w: WordEntry| word_field(w)),
            footer: Some("daumdic"@),
        },
        Response::AirPollution { station_address, observed_at, pollutants } => PayloadView {
            title: None,
            url: None,
            description: Some(air_description(station_address@, opt_view(observed_at))),
            fields: pollutants@.map_values(|p: Pollutant| pollutant_field(p)),
            footer: None,
        },
        Response::HowTo { title, link, instruction_text } => PayloadView {
            title: Some(title@),
            url: Some(link@),
            description: Some(howto_description(instruction_text@)),
            fields: Seq::empty(),
            footer: Some("howto"@),
        },
    }
}

/// The description of a dictionary reply.
pub fn describe_alternatives(alternatives: &Vec<String>) -> (r: String)
    ensures
        r@ == dictionary_description(views(alternatives@)),
{
    if alternatives.len() == 0 {
        String::new()
    } else {
        let mut d = String::from_str("Did you mean...\n");
        let joined = join_strings(alternatives, ", ");
        d.append(joined.as_str());
        d
    }
}

/// The field of one dictionary entry.
pub fn render_word(w: &WordEntry) -> (r: Field)
    ensures
        r@ == word_field(*w),
{
    let mut name = w.headword.clone();
    match &w.language_tag {
        Some(t) => {
            name.append(" ");
            name.append(t.as_str());
        },
        None => {},
    }
    let mut body = String::new();
    match &w.pronunciation {
        Some(p) => {
            body.append(p.as_str());
            body.append(" ");
        },
        None => {},
    }
    let meanings = join_strings(&w.meanings, ", ");
    body.append(meanings.as_str());
    Field { name, value: body, inline: false }
}

/// The recent readings joined by arrows.
pub fn format_readings(data: &Vec<Option<String>>) -> (r: String)
    ensures
        r@ == readings_line(data@),
{
    let n = data.len();
    let start: usize = if n > RECENT_READINGS { n - RECENT_READINGS } else { 0 };
    let ghost shown = recent(data@).map_values(|o: Option<String>| reading_text(o));
    let mut texts: Vec<String> = Vec::new();
    let mut i: usize = start;
    while i < n
        invariant
            n == data@.len(),
            start <= i <= n,
            recent(data@) == data@.subrange(start as int, n as int),
            shown == recent(data@).map_values(|o: Option<String>| reading_text(o)),
            texts@.len() == i - start,
            forall|j: int| 0 <= j < i - start ==> texts@[j]@ == shown[j],
        decreases n - i,
    {
        let t = match &data[i] {
            Some(s) => s.clone(),
            None => String::from_str("--"),
        };
        texts.push(t);
        i = i + 1;
    }
    assert(views(texts@) =~= shown);
    join_strings(&texts, " → ")
}

/// The field of one pollutant.
pub fn render_pollutant(p: &Pollutant) -> (r: Field)
    ensures
        r@ == pollutant_field(*p),
{
    let mut value = p.name.clone();
    value.append(" (");
    value.append(p.unit.as_str());
    value.append("): ");
    let readings = format_readings(&p.recent_readings);
    value.append(readings.as_str());
    value.append(" ");
    value.append(p.grade.label());
    Field { name: p.name.clone(), value, inline: true }
}

/// The first `n` characters of `s`, or all of it where it is shorter.
pub fn truncate_chars(s: &str, n: usize) -> (r: &str)
    ensures
        r@ == truncate(s@, n as nat),
{
    if s.unicode_len() > n {
        s.substring_char(0, n)
    } else {
        s
    }
}

/// Lays out a reply for the chat.
pub fn render(resp: &Response) -> (r: RenderedPayload)
    ensures
        r@ == render_spec(*resp),
{
    match resp {
        Response::Dictionary { alternatives, words } => {
            let mut fields: Vec<Field> = Vec::new();
            let mut i: usize = 0;
            while i < words.len()
                invariant
                    i <= words@.len(),
                    fields@.len() == i,
                    forall|j: int| 0 <= j < i ==> fields@[j]@ == word_field(words@[j]),
                decreases words@.len() - i,
            {
                let f = render_word(&words[i]);
                fields.push(f);
                i = i + 1;
            }
            let r = RenderedPayload {
                title: None,
                url: None,
                description: Some(describe_alternatives(alternatives)),
                fields,
                footer: Some(String::from_str("daumdic")),
            };
            assert(r@.fields =~= words@.map_values(|w: WordEntry| word_field(w)));
            r
        },
        Response::AirPollution { station_address, observed_at, pollutants } => {
            let mut fields: Vec<Field> = Vec::new();
            let mut i: usize = 0;
            while i < pollutants.len()
                invariant
                    i <= pollutants@.len(),
                    fields@.len() == i,
                    forall|j: int| 0 <= j < i ==> fields@[j]@ == pollutant_field(pollutants@[j]),
                decreases pollutants@.len() - i,
            {
                let f = render_pollutant(&pollutants[i]);
                fields.push(f);
                i = i + 1;
            }
            let mut d = station_address.clone();
            match observed_at {
                Some(t) => {
                    d.append(". ");
                    d.append(t.as_str());
                },
                None => {},
            }
            let r = RenderedPayload { title: None, url: None, description: Some(d), fields, footer: None };
            assert(r@.fields =~= pollutants@.map_values(|p: Pollutant| pollutant_field(p)));
            r
        },
        Response::HowTo { title, link, instruction_text } => {
            let mut d = String::from_str("```\n");
            d.append(truncate_chars(instruction_text.as_str(), INSTRUCTION_LIMIT));
            d.append("\n```");
            let r = RenderedPayload {
                title: Some(title.clone()),
                url: Some(link.clone()),
                description: Some(d),
                fields: Vec::new(),
                footer: Some(String::from_str("howto")),
            };
            assert(r@.fields =~= Seq::<FieldView>::empty());
            r
        },
    }
}

/// A reply's layout depends on the reply alone: two renderings of one reply agree.
pub proof fn lemma_render_deterministic(resp: Response, a: RenderedPayload, b: RenderedPayload)
    requires
        a@ == render_spec(resp),
        b@ == render_spec(resp),
    ensures
        a@ == b@,
{
}

} // verus!
