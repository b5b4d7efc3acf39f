use vstd::prelude::*;

use std::time::{Duration, Instant};

verus! {

#[verifier::external_type_specification]
#[verifier::external_body]
pub struct ExInstant(Instant);

/// Relies on `std::time::Instant::now`: a reading of the monotonic clock.
/// Nothing is known of its value.
#[verifier::external_body]
fn now() -> (r: Instant) {
    Instant::now()
}

/// Relies on `std::time::Instant::duration_since`: the time that passed from
/// `start` to `end`. Nothing is known of its value.
#[verifier::external_body]
fn elapsed(start: &Instant, end: &Instant) -> (r: Duration) {
    end.duration_since(*start)
}

/// Relies on `std::format!`: the two strings written one after the other.
#[verifier::external_body]
fn metric_name(tag: &str, suffix: &str) -> (r: String)
    ensures
        r@ == tag@ + suffix@,
{
    format!("{}{}", tag, suffix)
}

/// What one metric event records.
#[derive(Debug, PartialEq)]
pub enum Measurement {
    /// The named counter goes up by this much.
    Count(u64),
    /// One operation under the name took this long.
    Elapsed(Duration),
}

/// One recorded metric event.
#[derive(Debug, PartialEq)]
pub struct MetricEvent {
    pub name: String,
    pub measurement: Measurement,
}

/// The metric events recorded so far, oldest first.
#[derive(Debug)]
pub struct Metrics {
    pub events: Vec<MetricEvent>,
}

/// How much the counter `name` went up over `events`.
pub open spec fn count_of(events: Seq<MetricEvent>, name: Seq<char>) -> int
    decreases events.len(),
{
    if events.len() == 0 {
        0
    } else {
        let last = events.last();
        count_of(events.drop_last(), name) + match last.measurement {
            Measurement::Count(n) if last.name@ == name => n as int,
            _ => 0,
        }
    }
}

/// `new` is `old` with a count of one under `count_name`, then a duration
/// under `time_name`.
pub open spec fn records_one_call(
    old: Seq<MetricEvent>,
    new: Seq<MetricEvent>,
    count_name: Seq<char>,
    time_name: Seq<char>,
) -> bool {
    &&& new.len() == old.len() + 2
    &&& new.subrange(0, old.len() as int) == old
    &&& new[old.len() as int].name@ == count_name
    &&& new[old.len() as int].measurement == Measurement::Count(1)
    &&& new[old.len() + 1int].name@ == time_name
    &&& new[old.len() + 1int].measurement is Elapsed
}

impl Metrics {
    /// A recorder with no events.
    pub fn new() -> (r: Metrics)
        ensures
            r.events@.len() == 0,
    {
        Metrics { events: Vec::new() }
    }

    /// Raises the counter `name` by `by`.
    pub fn counter(&mut self, name: String, by: u64)
        ensures
            final(self).events@ == old(self).events@.push(
                MetricEvent { name, measurement: Measurement::Count(by) },
            ),
    {
        self.events.push(MetricEvent { name, measurement: Measurement::Count(by) });
    }

    /// Records that an operation under `name` took `took`.
    pub fn timing(&mut self, name: String, took: Duration)
        ensures
            final(self).events@ == old(self).events@.push(
                MetricEvent { name, measurement: Measurement::Elapsed(took) },
            ),
    {
        self.events.push(MetricEvent { name, measurement: Measurement::Elapsed(took) });
    }
}

proof fn lemma_count_after_call(
    old: Seq<MetricEvent>,
    new: Seq<MetricEvent>,
    count_name: Seq<char>,
    time_name: Seq<char>,
)
    requires
        records_one_call(old, new, count_name, time_name),
    ensures
        count_of(new, count_name) == count_of(old, count_name) + 1,
{
    assert(new.drop_last().drop_last() =~= old);
    assert(new.drop_last().last() == new[old.len() as int]);
    assert(new.last() == new[old.len() + 1int]);
    reveal_with_fuel(count_of, 3);
}

/// Runs `f` once and records under `tag` how long it took; `f`'s result is
/// handed back unchanged.
pub fn time<F: FnOnce() -> T, T>(metrics: &mut Metrics, tag: String, f: F) -> (r: T)
    requires
        f.requires(()),
    ensures
        f.ensures((), r),
        final(metrics).events@.len() == old(metrics).events@.len() + 1,
        final(metrics).events@.drop_last() == old(metrics).events@,
        final(metrics).events@.last().name == tag,
        final(metrics).events@.last().measurement is Elapsed,
{
    let start = now();
    let res = f();
    let end = now();
    let took = elapsed(&start, &end);
    metrics.timing(tag, took);
    proof {
        assert(final(metrics).events@.drop_last() =~= old(metrics).events@);
    }
    res
}

/// Runs the query `f` once: counts one call under `"{tag}.query.count"`, times
/// it under `"{tag}.query.time"`, and hands back `f`'s result unchanged.
pub fn query<F: FnOnce() -> T, T>(metrics: &mut Metrics, tag: &'static str, f: F) -> (r: T)
    requires
        f.requires(()),
    ensures
        f.ensures((), r),
        records_one_call(
            old(metrics).events@,
            final(metrics).events@,
            tag@ + ".query.count"@,
            tag@ + ".query.time"@,
        ),
        count_of(final(metrics).events@, tag@ + ".query.count"@) == count_of(
            old(metrics).events@,
            tag@ + ".query.count"@,
        ) + 1,
{
    let ghost before = metrics.events@;
    metrics.counter(metric_name(tag, ".query.count"), 1);
    let res = time(metrics, metric_name(tag, ".query.time"), f);
    proof {
        let after = metrics.events@;
        assert(after[before.len() as int] == after.drop_last()[before.len() as int]);
        assert(after.subrange(0, before.len() as int) =~= before);
        lemma_count_after_call(before, after, tag@ + ".query.count"@, tag@ + ".query.time"@);
    }
    res
}

/// Opens a connection through `f`: counts one attempt under
/// `"{tag}.connect.count"`, times it under `"{tag}.connect.time"`, and hands
/// back `f`'s result unchanged.
pub fn connect<F: FnOnce() -> T, T>(metrics: &mut Metrics, tag: &'static str, f: F) -> (r: T)
    requires
        f.requires(()),
    ensures
        f.ensures((), r),
        records_one_call(
            old(metrics).events@,
            final(metrics).events@,
            tag@ + ".connect.count"@,
            tag@ + ".connect.time"@,
        ),
        count_of(final(metrics).events@, tag@ + ".connect.count"@) == count_of(
            old(metrics).events@,
            tag@ + ".connect.count"@,
        ) + 1,
{
    let ghost before = metrics.events@;
    metrics.counter(metric_name(tag, ".connect.count"), 1);
    let res = time(metrics, metric_name(tag, ".connect.time"), f);
    proof {
        let after = metrics.events@;
        assert(after[before.len() as int] == after.drop_last()[before.len() as int]);
        assert(after.subrange(0, before.len() as int) =~= before);
        lemma_count_after_call(before, after, tag@ + ".connect.count"@, tag@ + ".connect.time"@);
    }
    res
}

} // verus!
