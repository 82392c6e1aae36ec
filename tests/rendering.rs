use backslash_bot::grade::{parse_grade, Grade};
use backslash_bot::render::{
    describe_alternatives, format_readings, render, render_pollutant, render_word,
    truncate_chars, Pollutant, Response, WordEntry,
};

fn s(x: &str) -> String {
    x.to_string()
}

fn readings(xs: &[Option<&str>]) -> Vec<Option<String>> {
    xs.iter().map(|x| x.map(|v| v.to_string())).collect()
}

#[test]
fn dictionary_description_without_alternatives_is_empty() {
    assert_eq!(describe_alternatives(&vec![]), "");
    let resp = Response::Dictionary { alternatives: vec![], words: vec![] };
    let p = render(&resp);
    assert_eq!(p.description.as_deref(), Some(""));
    assert_eq!(p.footer.as_deref(), Some("daumdic"));
    assert!(p.fields.is_empty());
    assert!(p.title.is_none());
}

#[test]
fn dictionary_description_lists_alternatives() {
    assert_eq!(describe_alternatives(&vec![s("a"), s("b")]), "Did you mean...\na, b");
}

#[test]
fn dictionary_word_fields() {
    let tagged = WordEntry {
        headword: s("Apfel"),
        language_tag: Some(s("de")),
        pronunciation: Some(s("[ˈapfl̩]")),
        meanings: vec![s("apple"), s("apple tree")],
    };
    let f = render_word(&tagged);
    assert_eq!(f.name, "Apfel de");
    assert_eq!(f.value, "[ˈapfl̩] apple, apple tree");
    assert!(!f.inline);

    let plain = WordEntry {
        headword: s("apple"),
        language_tag: None,
        pronunciation: None,
        meanings: vec![s("사과")],
    };
    let resp = Response::Dictionary { alternatives: vec![s("apply")], words: vec![plain] };
    let p = render(&resp);
    assert_eq!(p.fields.len(), 1);
    assert_eq!(p.fields[0].name, "apple");
    assert_eq!(p.fields[0].value, "사과");
    assert_eq!(p.description.as_deref(), Some("Did you mean...\napply"));
}

#[test]
fn readings_with_a_gap() {
    let data = readings(&[Some("12"), None, Some("8"), Some("9"), Some("15")]);
    assert_eq!(format_readings(&data), "12 → -- → 8 → 9 → 15");
}

#[test]
fn readings_keep_the_five_most_recent() {
    let data = readings(&[Some("1"), Some("2"), Some("3"), Some("4"), Some("5"), Some("6"), None]);
    assert_eq!(format_readings(&data), "3 → 4 → 5 → 6 → --");
}

#[test]
fn short_reading_history_shows_what_there_is() {
    assert_eq!(format_readings(&readings(&[Some("0.03"), None])), "0.03 → --");
    assert_eq!(format_readings(&readings(&[])), "");
}

#[test]
fn pollutant_field_layout() {
    let p = Pollutant {
        name: s("PM10"),
        unit: s("㎍/㎥"),
        grade: Grade::Normal,
        recent_readings: readings(&[Some("40"), Some("41"), None, Some("44"), Some("47"), Some("50")]),
    };
    let f = render_pollutant(&p);
    assert_eq!(f.name, "PM10");
    assert_eq!(f.value, "PM10 (㎍/㎥): 41 → -- → 44 → 47 → 50 보통");
    assert!(f.inline);
}

#[test]
fn air_description_and_fields() {
    let resp = Response::AirPollution {
        station_address: s("서울 강남구 학동로 426"),
        observed_at: Some(s("2019-03-20 15:00")),
        pollutants: vec![Pollutant {
            name: s("O3"),
            unit: s("ppm"),
            grade: Grade::Good,
            recent_readings: readings(&[Some("0.02")]),
        }],
    };
    let p = render(&resp);
    assert_eq!(p.description.as_deref(), Some("서울 강남구 학동로 426. 2019-03-20 15:00"));
    assert_eq!(p.fields.len(), 1);
    assert_eq!(p.fields[0].value, "O3 (ppm): 0.02 좋음");
    assert!(p.footer.is_none());

    let no_time = Response::AirPollution {
        station_address: s("부산"),
        observed_at: None,
        pollutants: vec![],
    };
    assert_eq!(render(&no_time).description.as_deref(), Some("부산"));
}

#[test]
fn howto_long_instruction_is_cut_at_a_thousand_characters() {
    let long: String = "가".repeat(1500);
    assert_eq!(truncate_chars(&long, 1000).chars().count(), 1000);
    let resp = Response::HowTo {
        title: s("How to sort"),
        link: s("https://stackoverflow.com/q/1"),
        instruction_text: long,
    };
    let p = render(&resp);
    let expected = format!("```\n{}\n```", "가".repeat(1000));
    assert_eq!(p.description.as_deref(), Some(expected.as_str()));
    assert_eq!(p.title.as_deref(), Some("How to sort"));
    assert_eq!(p.url.as_deref(), Some("https://stackoverflow.com/q/1"));
    assert_eq!(p.footer.as_deref(), Some("howto"));
}

#[test]
fn howto_short_instruction_is_kept() {
    let short: String = "x".repeat(500);
    let resp = Response::HowTo { title: s("t"), link: s("l"), instruction_text: short.clone() };
    let p = render(&resp);
    assert_eq!(p.description, Some(format!("```\n{}\n```", short)));
    assert_eq!(truncate_chars("abc", 1000), "abc");
    assert_eq!(truncate_chars(&"y".repeat(1000), 1000).len(), 1000);
}

#[test]
fn rendering_is_deterministic() {
    let resp = Response::Dictionary { alternatives: vec![s("a"), s("b")], words: vec![] };
    let a = render(&resp);
    let b = render(&resp);
    assert_eq!(a.description, b.description);
    assert_eq!(a.footer, b.footer);
    assert_eq!(a.fields.len(), b.fields.len());
}

#[test]
fn every_grade_has_a_label() {
    let grades = [Grade::NoInfo, Grade::Good, Grade::Normal, Grade::Bad, Grade::Critical];
    let labels: Vec<&str> = grades.iter().map(|g| g.label()).collect();
    assert_eq!(labels, vec!["정보없음", "좋음", "보통", "나쁨", "매우나쁨"]);
    assert!(labels.iter().all(|l| !l.is_empty()));
}

#[test]
fn grade_names_parse_and_unknown_names_fail() {
    assert_eq!(parse_grade("None").unwrap(), Grade::NoInfo);
    assert_eq!(parse_grade("Good").unwrap(), Grade::Good);
    assert_eq!(parse_grade("Normal").unwrap(), Grade::Normal);
    assert_eq!(parse_grade("Bad").unwrap(), Grade::Bad);
    assert_eq!(parse_grade("Critical").unwrap(), Grade::Critical);
    let e = parse_grade("Hazardous").unwrap_err();
    assert_eq!(e.cause, "Hazardous");
    assert!(parse_grade("good").is_err());
}
