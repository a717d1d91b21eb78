//! Runs of the properties and the one-line JSON report of a run.

use vstd::prelude::*;
use std::time::{Duration, Instant};
use crate::json::{json_str, json_string, lemma_plain_text_quoted_unchanged, plain_char};
use crate::names::{Property, is_all, names_all, property_named};
use crate::properties::{
    PropertyResult, Verdict, dict_roundtrip_verdict_of, drop_verdict_of,
    property_decompress_short_input_no_panic, property_dont_panic_on_drop,
    property_small_dict_no_panic,
};
use crate::text::{decimal, lemma_decimal_is_digits, push_decimal};

verus! {

/// How many inputs a run tried and how long it took.
#[derive(Debug, Clone, Copy)]
pub struct Metrics {
    pub inputs: u64,
    pub elapsed_us: u128,
}

impl Default for Metrics {
    fn default() -> (m: Metrics)
        ensures
            m.inputs == 0,
            m.elapsed_us == 0,
    {
        Metrics { inputs: 0, elapsed_us: 0 }
    }
}

impl Metrics {
    /// The metrics of two runs taken together.
    pub fn combine(self, other: Metrics) -> (m: Metrics)
        requires
            self.inputs + other.inputs <= u64::MAX,
            self.elapsed_us + other.elapsed_us <= u128::MAX,
        ensures
            m.inputs == self.inputs + other.inputs,
            m.elapsed_us == self.elapsed_us + other.elapsed_us,
    {
        Metrics { inputs: self.inputs + other.inputs, elapsed_us: self.elapsed_us + other.elapsed_us }
    }
}

/// The status of a run: `Ok` when it found nothing wrong, else the text
/// of the failure.
pub open spec fn status_view(r: Result<(), String>) -> Option<Seq<char>> {
    match r {
        Ok(()) => None,
        Err(m) => Some(m@),
    }
}

/// The status that a property check's outcome gives a run: a pass and a
/// discard find nothing wrong, a failure gives its text.
pub open spec fn verdict_status(v: Verdict) -> Option<Seq<char>> {
    match v {
        Verdict::Fail(m) => Some(m),
        _ => None,
    }
}

/// The status that a property check's outcome gives a run.
pub fn to_err(r: PropertyResult) -> (s: Result<(), String>)
    ensures
        status_view(s) == verdict_status(r@),
{
    match r {
        PropertyResult::Pass | PropertyResult::Discard => Ok(()),
        PropertyResult::Fail(m) => Err(m),
    }
}

/// A property check's outcome as a test tool counts it: `Some(true)` for
/// a pass, `Some(false)` for a failure, `None` for a discard.
pub fn as_check(r: &PropertyResult) -> (c: Option<bool>)
    ensures
        c == match r@ {
            Verdict::Pass => Some(true),
            Verdict::Fail(_) => Some(false),
            Verdict::Discard => None::<bool>,
        },
{
    match r {
        PropertyResult::Pass => Some(true),
        PropertyResult::Fail(_) => Some(false),
        PropertyResult::Discard => None,
    }
}

/// The status of a run followed by its metrics.
pub type Outcome = (Result<(), String>, Metrics);

/// The status of several runs taken together: the first failure among
/// them, if any.
pub open spec fn first_failure(outcomes: Seq<Outcome>) -> Option<Seq<char>>
    decreases outcomes.len(),
{
    if outcomes.len() == 0 {
        None
    } else {
        match status_view(outcomes[0].0) {
            Some(m) => Some(m),
            None => first_failure(outcomes.drop_first()),
        }
    }
}

/// The inputs of several runs, summed.
pub open spec fn total_inputs(outcomes: Seq<Outcome>) -> nat
    decreases outcomes.len(),
{
    if outcomes.len() == 0 {
        0
    } else {
        outcomes[0].1.inputs as nat + total_inputs(outcomes.drop_first())
    }
}

/// The elapsed times of several runs, summed.
pub open spec fn total_elapsed(outcomes: Seq<Outcome>) -> nat
    decreases outcomes.len(),
{
    if outcomes.len() == 0 {
        0
    } else {
        outcomes[0].1.elapsed_us as nat + total_elapsed(outcomes.drop_first())
    }
}

proof fn lemma_totals_split(outcomes: Seq<Outcome>, i: int)
    requires
        0 <= i < outcomes.len(),
    ensures
        total_inputs(outcomes.skip(i)) == outcomes[i].1.inputs + total_inputs(outcomes.skip(i + 1)),
        total_elapsed(outcomes.skip(i)) == outcomes[i].1.elapsed_us + total_elapsed(
            outcomes.skip(i + 1),
        ),
        first_failure(outcomes.skip(i)) == match status_view(outcomes[i].0) {
            Some(m) => Some(m),
            None => first_failure(outcomes.skip(i + 1)),
        },
{
    assert(outcomes.skip(i).drop_first() =~= outcomes.skip(i + 1));
}

/// Several runs taken together: the first failure decides the status,
/// and the metrics add up.
pub fn run_all(outcomes: Vec<Outcome>) -> (r: Outcome)
    requires
        total_inputs(outcomes@) <= u64::MAX,
        total_elapsed(outcomes@) <= u128::MAX,
    ensures
        status_view(r.0) == first_failure(outcomes@),
        r.1.inputs == total_inputs(outcomes@),
        r.1.elapsed_us == total_elapsed(outcomes@),
{
    let n = outcomes.len();
    let mut total = Metrics::default();
    let mut status: Result<(), String> = Ok(());
    let mut k: usize = n;
    let mut outcomes = outcomes;
    let ghost all = outcomes@;
    // Walk from the back, so that an earlier failure replaces a later one.
    while k > 0
        invariant
            n == all.len(),
            k <= n,
            outcomes@ == all.take(k as int),
            total.inputs == total_inputs(all.skip(k as int)),
            total.elapsed_us == total_elapsed(all.skip(k as int)),
            status_view(status) == first_failure(all.skip(k as int)),
            total_inputs(all) <= u64::MAX,
            total_elapsed(all) <= u128::MAX,
        decreases k,
    {
        k = k - 1;
        proof {
            lemma_totals_split(all, k as int);
            lemma_total_bounds(all, k as int);
        }
        let (s, m) = outcomes.pop().unwrap();
        total = m.combine(total);
        if s.is_err() {
            status = s;
        }
        assert(outcomes@ =~= all.take(k as int));
    }
    assert(all.skip(0) =~= all);
    (status, total)
}

proof fn lemma_total_bounds(outcomes: Seq<Outcome>, i: int)
    requires
        0 <= i <= outcomes.len(),
    ensures
        total_inputs(outcomes.skip(i)) <= total_inputs(outcomes),
        total_elapsed(outcomes.skip(i)) <= total_elapsed(outcomes),
    decreases i,
{
    if i > 0 {
        lemma_total_bounds(outcomes, i - 1);
        lemma_totals_split(outcomes, i - 1);
    } else {
        assert(outcomes.skip(0) =~= outcomes);
    }
}

#[verifier::external_type_specification]
#[verifier::external_body]
pub struct ExInstant(Instant);

/// Calls `std::time::Instant::now`; of the moment nothing is stated.
#[verifier::external_body]
fn now() -> Instant {
    Instant::now()
}

/// Calls `std::time::Instant::elapsed`; of the time nothing is stated.
#[verifier::external_body]
fn elapsed_since(start: &Instant) -> Duration {
    start.elapsed()
}

/// Calls `std::time::Duration::as_micros`, the whole microseconds of a
/// duration. A duration holds a `u64` of seconds and fewer than a billion
/// nanoseconds, so the count is at most `u64::MAX` million and 999,999.
#[verifier::external_body]
fn as_micros(d: &Duration) -> (us: u128)
    ensures
        us <= 18_446_744_073_709_551_615_999_999u128,
{
    d.as_micros()
}

/// The text of a run's status for a property that the tool does not know.
pub open spec fn unknown_property_text(tool: Seq<char>, property: Seq<char>) -> Seq<char> {
    "Unknown property for "@ + tool + ": "@ + property
}

/// The status text for a property that the tool `tool` does not know.
pub fn unknown_property(tool: &str, property: &str) -> (m: String)
    ensures
        m@ == unknown_property_text(tool@, property@),
{
    let mut m = String::from_str("Unknown property for ");
    m.append(tool);
    m.append(": ");
    m.append(property);
    m
}

/// The status text for a tool that no run knows.
pub fn unknown_tool(tool: &str) -> (m: String)
    ensures
        m@ == "Unknown tool: "@ + tool@,
{
    let mut m = String::from_str("Unknown tool: ");
    m.append(tool);
    m
}

/// The bytes of `hello world`, the payload of the fixed frame check.
pub open spec fn hello_world() -> Seq<u8> {
    seq![104u8, 101, 108, 108, 111, 32, 119, 111, 114, 108, 100]
}

/// The input of the fixed dictionary check.
pub open spec fn dict_witness_input() -> Seq<u8> {
    seq![10u8, 12, 14, 16, 18, 10, 12, 14, 16, 18, 10, 12, 14, 16, 18, 10, 12, 14, 16, 18]
}

/// The three-byte dictionary of the fixed dictionary check.
pub open spec fn dict_witness_dict() -> Seq<u8> {
    seq![10u8, 12, 14]
}

/// The outcome of the fixed check of a property: the drop check on
/// `hello world`, the dictionary check on its fixed input and
/// three-byte dictionary, and the short-input check on the empty input,
/// which passes, as every input shorter than four bytes does.
pub open spec fn fixed_verdict(p: Property) -> Verdict {
    match p {
        Property::DontPanicOnDrop => drop_verdict_of(hello_world()),
        Property::SmallDictNoPanic => dict_roundtrip_verdict_of(dict_witness_input(), dict_witness_dict()),
        Property::DecompressShortInputNoPanic => Verdict::Pass,
    }
}

/// The status of a fixed run of every property: the first failure in the
/// order of `every_property`.
pub open spec fn fixed_all_status() -> Option<Seq<char>> {
    match verdict_status(fixed_verdict(Property::DontPanicOnDrop)) {
        Some(m) => Some(m),
        None => match verdict_status(fixed_verdict(Property::SmallDictNoPanic)) {
            Some(m) => Some(m),
            None => verdict_status(fixed_verdict(Property::DecompressShortInputNoPanic)),
        },
    }
}

/// Checks one property once, on its fixed input, and times the check.
pub fn run_etna_once(p: Property) -> (r: Outcome)
    ensures
        status_view(r.0) == verdict_status(fixed_verdict(p)),
        r.1.inputs == 1,
        r.1.elapsed_us <= 18_446_744_073_709_551_615_999_999u128,
{
    let start = now();
    let result = match p {
        Property::DontPanicOnDrop => {
            let data = vec![104u8, 101, 108, 108, 111, 32, 119, 111, 114, 108, 100];
            assert(data@ =~= hello_world());
            to_err(property_dont_panic_on_drop(data))
        },
        Property::SmallDictNoPanic => {
            let input = vec![
                10u8, 12, 14, 16, 18, 10, 12, 14, 16, 18, 10, 12, 14, 16, 18, 10, 12, 14, 16, 18,
            ];
            let dict = vec![10u8, 12, 14];
            assert(input@ =~= dict_witness_input());
            assert(dict@ =~= dict_witness_dict());
            to_err(property_small_dict_no_panic((input, dict)))
        },
        Property::DecompressShortInputNoPanic => {
            let input: Vec<u8> = Vec::new();
            assert(input@ =~= Seq::<u8>::empty());
            to_err(property_decompress_short_input_no_panic(input))
        },
    };
    let elapsed = elapsed_since(&start);
    let elapsed_us = as_micros(&elapsed);
    (result, Metrics { inputs: 1, elapsed_us })
}

/// The fixed run that the `etna` tool makes of the property named
/// `property`, or of every property for `All`.
pub fn run_etna_property(property: &str) -> (r: Outcome)
    ensures
        names_all(property@) ==> status_view(r.0) == fixed_all_status() && r.1.inputs == 3,
        property_named(property@) matches Some(p) ==> status_view(r.0) == verdict_status(
            fixed_verdict(p),
        ) && r.1.inputs == 1,
        !names_all(property@) && property_named(property@) is None ==> status_view(r.0) == Some(
            unknown_property_text("etna"@, property@),
        ) && r.1.inputs == 0 && r.1.elapsed_us == 0,
{
    if is_all(property) {
        let mut outcomes: Vec<Outcome> = Vec::new();
        outcomes.push(run_etna_once(Property::DontPanicOnDrop));
        outcomes.push(run_etna_once(Property::SmallDictNoPanic));
        outcomes.push(run_etna_once(Property::DecompressShortInputNoPanic));
        proof {
            reveal_strlit("All");
            reveal_strlit("DontPanicOnDrop");
            reveal_strlit("SmallDictNoPanic");
            reveal_strlit("DecompressShortInputNoPanic");
            reveal_with_fuel(first_failure, 4);
            reveal_with_fuel(total_inputs, 4);
            reveal_with_fuel(total_elapsed, 4);
        }
        return run_all(outcomes);
    }
    match Property::from_name(property) {
        Some(p) => run_etna_once(p),
        None => (Err(unknown_property("etna", property)), Metrics::default()),
    }
}

/// The characters of an optional text.
pub open spec fn text_view(t: Option<&str>) -> Option<Seq<char>> {
    match t {
        Some(s) => Some(s@),
        None => None,
    }
}

/// An optional text in the report: its JSON string literal, or `null`.
pub open spec fn optional_json(t: Option<Seq<char>>) -> Seq<char> {
    match t {
        Some(s) => json_string(s),
        None => "null"@,
    }
}

/// The one-line JSON report of a run.
pub open spec fn report_text(
    tool: Seq<char>,
    property: Seq<char>,
    status: Seq<char>,
    metrics: Metrics,
    counterexample: Option<Seq<char>>,
    error: Option<Seq<char>>,
) -> Seq<char> {
    "{\"status\":"@ + json_string(status) + ",\"tests\":"@ + decimal(metrics.inputs as nat)
        + ",\"discards\":0,\"time\":"@ + json_string(decimal(metrics.elapsed_us as nat) + "us"@)
        + ",\"counterexample\":"@ + optional_json(counterexample) + ",\"error\":"@
        + optional_json(error) + ",\"tool\":"@ + json_string(tool) + ",\"property\":"@
        + json_string(property) + "}"@
}

/// Appends an optional text as the report writes it.
fn push_optional_json(out: &mut String, t: Option<&str>)
    ensures
        final(out)@ == old(out)@ + optional_json(text_view(t)),
{
    match t {
        Some(s) => {
            let j = json_str(s);
            out.append(j.as_str());
        },
        None => out.append("null"),
    }
}

/// The one-line JSON report of a run: its status, the inputs tried, the
/// time taken, the counterexample and error texts if any, the tool and
/// the property.
pub fn json_report(
    tool: &str,
    property: &str,
    status: &str,
    metrics: Metrics,
    counterexample: Option<&str>,
    error: Option<&str>,
) -> (r: String)
    ensures
        r@ == report_text(
            tool@,
            property@,
            status@,
            metrics,
            text_view(counterexample),
            text_view(error),
        ),
{
    let mut out = String::from_str("{\"status\":");
    let j = json_str(status);
    out.append(j.as_str());
    out.append(",\"tests\":");
    push_decimal(&mut out, metrics.inputs as u128);
    out.append(",\"discards\":0,\"time\":");
    let mut time = String::new();
    push_decimal(&mut time, metrics.elapsed_us);
    time.append("us");
    let j = json_str(time.as_str());
    out.append(j.as_str());
    out.append(",\"counterexample\":");
    push_optional_json(&mut out, counterexample);
    out.append(",\"error\":");
    push_optional_json(&mut out, error);
    out.append(",\"tool\":");
    let j = json_str(tool);
    out.append(j.as_str());
    out.append(",\"property\":");
    let j = json_str(property);
    out.append(j.as_str());
    out.append("}");
    proof {
        assert(Seq::<char>::empty() + decimal(metrics.elapsed_us as nat) + "us"@ =~= decimal(
            metrics.elapsed_us as nat,
        ) + "us"@);
    }
    out
}

/// The report of a finished run: `passed`, or `failed` with the failure
/// text as the counterexample.
pub fn outcome_report(tool: &str, property: &str, outcome: &Outcome) -> (r: String)
    ensures
        r@ == match status_view(outcome.0) {
            None => report_text(tool@, property@, "passed"@, outcome.1, None, None),
            Some(m) => report_text(tool@, property@, "failed"@, outcome.1, Some(m), None),
        },
{
    match &outcome.0 {
        Ok(()) => json_report(tool, property, "passed", outcome.1, None, None),
        Err(m) => json_report(tool, property, "failed", outcome.1, Some(m.as_str()), None),
    }
}

/// The report of a run that the runner itself broke off with `message`.
pub fn aborted_report(tool: &str, property: &str, message: &str) -> (r: String)
    ensures
        r@ == report_text(
            tool@,
            property@,
            "aborted"@,
            Metrics { inputs: 0, elapsed_us: 0 },
            None,
            Some("adapter panic: "@ + message@),
        ),
{
    let mut e = String::from_str("adapter panic: ");
    e.append(message);
    json_report(tool, property, "aborted", Metrics::default(), None, Some(e.as_str()))
}

/// The time of a report is quoted as it stands: the decimal count of
/// microseconds followed by `us`, between quotes.
pub proof fn lemma_report_time_unescaped(elapsed_us: u128)
    ensures
        json_string(decimal(elapsed_us as nat) + "us"@) == seq!['"'] + decimal(elapsed_us as nat)
            + "us"@ + seq!['"'],
{
    reveal_strlit("us");
    let d = decimal(elapsed_us as nat);
    let t = d + "us"@;
    lemma_decimal_is_digits(elapsed_us as nat);
    assert forall|i: int| 0 <= i < t.len() implies plain_char(#[trigger] t[i]) by {
        if i < d.len() {
            assert(t[i] == d[i]);
        }
    }
    lemma_plain_text_quoted_unchanged(t);
}

/// Several runs taken together find nothing wrong exactly when none of
/// them did.
pub proof fn lemma_runs_pass_together(outcomes: Seq<Outcome>)
    ensures
        first_failure(outcomes) is None <==> forall|i: int|
            0 <= i < outcomes.len() ==> status_view(#[trigger] outcomes[i].0) is None,
    decreases outcomes.len(),
{
    if outcomes.len() > 0 {
        let rest = outcomes.drop_first();
        lemma_runs_pass_together(rest);
        if first_failure(outcomes) is None {
            assert forall|i: int| 0 <= i < outcomes.len() implies status_view(
                #[trigger] outcomes[i].0,
            ) is None by {
                if i > 0 {
                    assert(outcomes[i] == rest[i - 1]);
                }
            }
        } else if status_view(outcomes[0].0) is None {
            let j = choose|j: int| 0 <= j < rest.len() && !(status_view(#[trigger] rest[j].0) is None);
            assert(rest[j] == outcomes[j + 1]);
        }
    }
}

/// How a run of a test tool ended, in plain values: the tool's own report
/// converted by its caller.
pub enum RunEnd {
    /// Every test passed.
    Passed,
    /// A counterexample was found; its arguments, each rendered as text.
    Failed { arguments: Vec<String> },
    /// The run took too long.
    TimedOut,
    /// Too many inputs were discarded.
    GaveUp { passed: u64, discarded: u64 },
    /// The tool itself broke off, with the text of its error.
    Aborted { error: String },
}

/// Texts joined with `sep` between each two.
pub open spec fn joined(parts: Seq<Seq<char>>, sep: Seq<char>) -> Seq<char>
    decreases parts.len(),
{
    if parts.len() == 0 {
        Seq::empty()
    } else if parts.len() == 1 {
        parts[0]
    } else {
        joined(parts.drop_last(), sep) + sep + parts.last()
    }
}

/// The characters of each text.
pub open spec fn texts_view(parts: Seq<String>) -> Seq<Seq<char>> {
    parts.map_values(|s: String| s@)
}

/// The status that a run's end gives it: nothing wrong when it passed,
/// else the text of what happened.
pub open spec fn run_end_status(e: RunEnd) -> Option<Seq<char>> {
    match e {
        RunEnd::Passed => None,
        RunEnd::Failed { arguments } => Some(
            "("@ + joined(texts_view(arguments@), " "@) + ")"@,
        ),
        RunEnd::TimedOut => Some("timed out"@),
        RunEnd::GaveUp { passed, discarded } => Some(
            "gave up: passed="@ + decimal(passed as nat) + ", discarded="@ + decimal(
                discarded as nat,
            ),
        ),
        RunEnd::Aborted { error } => Some("aborted: "@ + error@),
    }
}

/// A failure with no argument shows empty brackets.
pub proof fn lemma_failed_no_argument(arguments: Vec<String>)
    requires
        arguments@.len() == 0,
    ensures
        run_end_status(RunEnd::Failed { arguments }) == Some("()"@),
{
    reveal_strlit("(");
    reveal_strlit(")");
    reveal_strlit("()");
    assert("("@ + Seq::<char>::empty() + ")"@ =~= "()"@);
}

/// A failure with one argument shows that argument's text, whole,
/// between brackets.
pub proof fn lemma_failed_one_argument(arguments: Vec<String>)
    requires
        arguments@.len() == 1,
    ensures
        run_end_status(RunEnd::Failed { arguments }) == Some("("@ + arguments@[0]@ + ")"@),
{
    assert(texts_view(arguments@)[0] == arguments@[0]@);
}

/// One more argument shows as a space and its text, put in before the
/// closing bracket; with the law for one argument this makes the text
/// the arguments in order, separated by single spaces, between brackets.
pub proof fn lemma_failed_one_more_argument(arguments: Vec<String>, more: Vec<String>)
    requires
        arguments@.len() >= 1,
        more@.len() == arguments@.len() + 1,
        forall|i: int| 0 <= i < arguments@.len() ==> more@[i] == arguments@[i],
    ensures
        ({
            let before = run_end_status(RunEnd::Failed { arguments })->Some_0;
            run_end_status(RunEnd::Failed { arguments: more }) == Some(
                before.take(before.len() - 1) + " "@ + more@.last()@ + ")"@,
            )
        }),
{
    reveal_strlit(")");
    let a = texts_view(arguments@);
    let m = texts_view(more@);
    assert(m.drop_last() =~= a);
    assert(m.last() == more@.last()@);
    let before = run_end_status(RunEnd::Failed { arguments })->Some_0;
    let j = joined(a, " "@);
    assert(before == "("@ + j + ")"@);
    assert(before.take(before.len() - 1) =~= "("@ + j);
    assert("("@ + joined(m, " "@) + ")"@ =~= before.take(before.len() - 1) + " "@ + more@.last()@
        + ")"@);
}

/// The status of a run that ended as `e`.
pub fn run_end_status_of(e: RunEnd) -> (r: Result<(), String>)
    ensures
        status_view(r) == run_end_status(e),
{
    match e {
        RunEnd::Passed => Ok(()),
        RunEnd::Failed { arguments } => {
            let mut m = String::from_str("(");
            let n = arguments.len();
            for i in 0..n
                invariant
                    n == arguments@.len(),
                    m@ == "("@ + joined(texts_view(arguments@).take(i as int), " "@),
            {
                let ghost before = texts_view(arguments@).take(i as int);
                if i > 0 {
                    m.append(" ");
                }
                m.append(arguments[i].as_str());
                proof {
                    let now = texts_view(arguments@).take(i + 1);
                    assert(now.drop_last() =~= before);
                    assert(now.last() == arguments@[i as int]@);
                    if i == 0 {
                        assert(before.len() == 0);
                        assert(now.len() == 1);
                    }
                }
            }
            assert(texts_view(arguments@).take(n as int) =~= texts_view(arguments@));
            m.append(")");
            Err(m)
        },
        RunEnd::TimedOut => Err(String::from_str("timed out")),
        RunEnd::GaveUp { passed, discarded } => {
            let mut m = String::from_str("gave up: passed=");
            push_decimal(&mut m, passed as u128);
            m.append(", discarded=");
            push_decimal(&mut m, discarded as u128);
            Err(m)
        },
        RunEnd::Aborted { error } => {
            let mut m = String::from_str("aborted: ");
            m.append(error.as_str());
            Err(m)
        },
    }
}

} // verus!
