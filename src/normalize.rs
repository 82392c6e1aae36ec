//! Turns what the air-quality service reports into a reply.

use vstd::prelude::*;
use crate::error::{Provider, ProviderError};
use crate::grade::{grade_named, parse_grade};
use crate::render::{Pollutant, Response};

verus! {

/// A pollutant as the air-quality service reports it, its grade still a name.
#[derive(Clone, Debug)]
pub struct RawPollutant {
    pub name: String,
    pub unit: String,
    pub grade_name: String,
    pub recent_readings: Vec<Option<String>>,
}

/// Whether `p` is `q` with its grade name read.
pub open spec fn pollutant_from(p: Pollutant, q: RawPollutant) -> bool {
    &&& p.name == q.name
    &&& p.unit == q.unit
    &&& grade_named(q.grade_name@) == Some(p.grade)
    &&& p.recent_readings == q.recent_readings
}

/// Whether every pollutant's grade name is known.
pub open spec fn all_grades_known(raw: Seq<RawPollutant>) -> bool {
    forall|i: int| 0 <= i < raw.len() ==> grade_named(#[trigger] raw[i].grade_name@) is Some
}

/// Whether `name` is the first unknown grade name among `raw`.
pub open spec fn first_unknown_grade(raw: Seq<RawPollutant>, name: Seq<char>) -> bool {
    exists|k: int|
        0 <= k < raw.len() && all_grades_known(raw.subrange(0, k)) && grade_named(
            #[trigger] raw[k].grade_name@,
        ) is None && name == raw[k].grade_name@
}

/// Reads one pollutant's grade name.
pub fn read_pollutant(q: RawPollutant) -> (r: Result<Pollutant, ProviderError>)
    ensures
        match grade_named(q.grade_name@) {
            Some(_) => r matches Ok(p) && pollutant_from(p, q),
            None => r matches Err(e) && e.source == Provider::AirQuality && e.cause@
                == q.grade_name@,
        },
{
    let grade = match parse_grade(q.grade_name.as_str()) {
        Ok(g) => g,
        Err(e) => return Err(e),
    };
    Ok(Pollutant { name: q.name, unit: q.unit, grade, recent_readings: q.recent_readings })
}

/// The air-quality reply for a station; fails on the first pollutant whose
/// grade name is unknown.
pub fn air_pollution(
    station_address: String,
    observed_at: Option<String>,
    raw: Vec<RawPollutant>,
) -> (r: Result<Response, ProviderError>)
    ensures
        r is Ok <==> all_grades_known(raw@),
        r matches Ok(resp) ==> resp matches Response::AirPollution {
            station_address: a,
            observed_at: t,
            pollutants,
        } && a == station_address && t == observed_at && pollutants@.len() == raw@.len() && (
        forall|i: int| 0 <= i < raw@.len() ==> pollutant_from(#[trigger] pollutants@[i], raw@[i])),
        r matches Err(e) ==> e.source == Provider::AirQuality && first_unknown_grade(
            raw@,
            e.cause@,
        ),
{
    let ghost all = raw@;
    let n = raw.len();
    let mut rest = raw;
    let mut pollutants: Vec<Pollutant> = Vec::new();
    let mut i: usize = 0;
    while i < n
        invariant
            all == raw@,
            n == all.len(),
            i <= n,
            rest@ == all.subrange(i as int, n as int),
            pollutants@.len() == i,
            forall|j: int| 0 <= j < i ==> pollutant_from(#[trigger] pollutants@[j], all[j]),
            all_grades_known(all.subrange(0, i as int)),
        decreases n - i,
    {
        let q = rest.remove(0);
        assert(q == all[i as int]);
        match read_pollutant(q) {
            Ok(p) => pollutants.push(p),
            Err(e) => {
                assert(first_unknown_grade(all, e.cause@)) by {
                    assert(all[i as int].grade_name@ == e.cause@);
                }
                assert(!all_grades_known(all)) by {
                    assert(grade_named(all[i as int].grade_name@) is None);
                }
                return Err(e);
            },
        }
        assert forall|j: int| 0 <= j < i + 1 implies grade_named(
            #[trigger] all.subrange(0, i + 1)[j].grade_name@,
        ) is Some by {
            if j < i {
                assert(all.subrange(0, i + 1)[j] == all.subrange(0, i as int)[j]);
            }
        }
        assert(rest@ =~= all.subrange(i + 1, n as int));
        i = i + 1;
    }
    assert(all.subrange(0, n as int) =~= all);
    Ok(Response::AirPollution { station_address, observed_at, pollutants })
}

} // verus!
