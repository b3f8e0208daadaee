//! The whole pipeline over one bulletin: split into reports, decode
//! each, classify it, and aggregate the raw text of the hazardous
//! reports — each followed by a newline — in bulletin order.

use vstd::prelude::*;
use crate::classify::{bad_weather, spec_hazardous};
use crate::decode::{parse_metar, spec_parse_metar};
use crate::time::{spec_is_stale, ReportTime, UtcInstant};
use crate::tokens::{spec_lines, split_lines};

verus! {

/// The fallback report time of a reference instant: its own day, hour
/// and minute.
pub open spec fn spec_fallback(now: UtcInstant) -> ReportTime {
    ReportTime { day: now.day, hour: now.hour, minute: now.minute }
}

/// The output contribution of one report line: the line followed by a
/// newline when it decodes to a hazardous, non-stale report; nothing
/// otherwise.
pub open spec fn spec_report_line(line: Seq<char>, now: UtcInstant) -> Seq<char> {
    match spec_parse_metar(line, spec_fallback(now)) {
        None => Seq::<char>::empty(),
        Some(w) => if spec_hazardous(w, spec_is_stale(w.time, now)) {
            line + "\n"@
        } else {
            Seq::<char>::empty()
        },
    }
}

/// The aggregated output of a sequence of report lines, in order.
pub open spec fn spec_aggregate(lines: Seq<Seq<char>>, now: UtcInstant) -> Seq<char>
    decreases lines.len(),
{
    if lines.len() == 0 {
        Seq::<char>::empty()
    } else {
        spec_report_line(lines[0], now) + spec_aggregate(lines.drop_first(), now)
    }
}

/// The output of a whole bulletin: the aggregation of its lines.
pub open spec fn spec_process_bulletin(bulletin: Seq<char>, now: UtcInstant) -> Seq<char> {
    spec_aggregate(spec_lines(bulletin), now)
}

/// Aggregation peels lines off the back as well as off the front.
proof fn lemma_aggregate_push(lines: Seq<Seq<char>>, x: Seq<char>, now: UtcInstant)
    ensures
        spec_aggregate(lines.push(x), now) == spec_aggregate(lines, now) + spec_report_line(
            x,
            now,
        ),
    decreases lines.len(),
{
    reveal_with_fuel(spec_aggregate, 3);
    if lines.len() == 0 {
        assert(lines.push(x)[0] == x);
        assert(lines.push(x).drop_first() =~= Seq::<Seq<char>>::empty());
        assert(spec_aggregate(lines.push(x), now) =~= spec_aggregate(lines, now)
            + spec_report_line(x, now));
    } else {
        assert(lines.push(x)[0] == lines[0]);
        assert(lines.push(x).drop_first() =~= lines.drop_first().push(x));
        lemma_aggregate_push(lines.drop_first(), x, now);
        assert(spec_aggregate(lines.push(x), now) =~= spec_aggregate(lines, now)
            + spec_report_line(x, now));
    }
}

/// Processes one bulletin: splits it into reports, decodes and
/// classifies each against the reference instant, and returns the raw
/// text of the hazardous reports, each followed by a newline, in
/// bulletin order.
pub fn process_bulletin(bulletin: &str, now: &UtcInstant) -> (r: String)
    requires
        now.wf(),
    ensures
        r@ == spec_process_bulletin(bulletin@, *now),
{
    let reports = split_lines(bulletin);
    let ghost lines = spec_lines(bulletin@);
    let fallback = now.report_time();
    let mut out = String::new();
    let mut i: usize = 0;
    while i < reports.len()
        invariant
            now.wf(),
            fallback == spec_fallback(*now),
            fallback.wf(),
            i <= reports.len(),
            reports.deep_view() == lines,
            lines == spec_lines(bulletin@),
            out@ == spec_aggregate(lines.take(i as int), *now),
        decreases reports.len() - i,
    {
        let line = reports[i].clone();
        proof {
            assert(line@ == lines[i as int]);
        }
        match parse_metar(line, fallback) {
            None => {},
            Some(w) => {
                if bad_weather(&w, now) {
                    out.append(w.raw_metar.as_str());
                    out.append("\n");
                }
            },
        }
        proof {
            lemma_aggregate_push(lines.take(i as int), lines[i as int], *now);
            assert(lines.take(i as int).push(lines[i as int]) =~= lines.take(i as int + 1));
            assert(out@ =~= spec_aggregate(lines.take(i as int + 1), *now));
        }
        i = i + 1;
    }
    proof {
        assert(lines.take(reports.len() as int) =~= lines);
    }
    out
}

} // verus!
