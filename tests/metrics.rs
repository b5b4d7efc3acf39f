use quaint::connector::metrics::{connect, query, time, Measurement, MetricEvent, Metrics};

fn count_of(m: &Metrics, name: &str) -> u64 {
    m.events
        .iter()
        .filter(|e| e.name == name)
        .map(|e| match e.measurement {
            Measurement::Count(n) => n,
            Measurement::Elapsed(_) => 0,
        })
        .sum()
}

#[test]
fn query_returns_the_result_unchanged() {
    let mut m = Metrics::new();
    let direct = (|| 6 * 7)();
    assert_eq!(query(&mut m, "postgres", || 6 * 7), direct);
}

#[test]
fn query_counts_and_times_one_call() {
    let mut m = Metrics::new();
    query(&mut m, "postgres", || "rows".to_string());
    assert_eq!(m.events.len(), 2);
    assert_eq!(
        m.events[0],
        MetricEvent { name: "postgres.query.count".to_string(), measurement: Measurement::Count(1) }
    );
    assert_eq!(m.events[1].name, "postgres.query.time");
    assert!(matches!(m.events[1].measurement, Measurement::Elapsed(_)));
}

#[test]
fn each_query_adds_exactly_one_to_its_counter() {
    let mut m = Metrics::new();
    for i in 0..3u64 {
        assert_eq!(query(&mut m, "sqlite", || i), i);
        assert_eq!(count_of(&m, "sqlite.query.count"), i + 1);
    }
    assert_eq!(count_of(&m, "sqlite.connect.count"), 0);
}

#[test]
fn connect_counts_and_passes_errors_through() {
    let mut m = Metrics::new();
    let r: Result<u8, String> = connect(&mut m, "mysql", || Err("refused".to_string()));
    assert_eq!(r, Err("refused".to_string()));
    assert_eq!(count_of(&m, "mysql.connect.count"), 1);
    assert_eq!(m.events[1].name, "mysql.connect.time");
}

#[test]
fn time_records_one_duration() {
    let mut m = Metrics::new();
    let v = time(&mut m, "job.time".to_string(), || vec![1, 2, 3]);
    assert_eq!(v, vec![1, 2, 3]);
    assert_eq!(m.events.len(), 1);
    assert_eq!(m.events[0].name, "job.time");
    assert!(matches!(m.events[0].measurement, Measurement::Elapsed(_)));
}

#[test]
fn counter_and_timing_append() {
    let mut m = Metrics::new();
    m.counter("a".to_string(), 5);
    m.timing("b".to_string(), std::time::Duration::from_millis(3));
    assert_eq!(count_of(&m, "a"), 5);
    assert_eq!(
        m.events[1],
        MetricEvent {
            name: "b".to_string(),
            measurement: Measurement::Elapsed(std::time::Duration::from_millis(3))
        }
    );
}
