use indexmap::IndexMap;
use statsd_wire::AlertType;
use statsd_wire::Event;
use statsd_wire::IntoStatsd;
use statsd_wire::Metric;
use statsd_wire::MetricType;
use statsd_wire::Priority;
use statsd_wire::Sample;
use statsd_wire::ServiceCheck;
use statsd_wire::Status;
use statsd_wire::Timestamp;

fn foo_bar_tags() -> IndexMap<String, Option<String>> {
    let mut tags: IndexMap<String, Option<String>> = IndexMap::new();
    tags.insert("foo".into(), None);
    tags.insert("bar".into(), Some("baz".into()));
    tags
}

fn rate(value: f64) -> Sample {
    Sample::new(value.to_bits(), format!("{}", value)).unwrap()
}

fn bare_metric(value: f64, m_type: MetricType) -> Metric {
    Metric {
        metric: "app".into(),
        name: "requests".into(),
        value: format!("{}", value),
        m_type,
        sample_rate: None,
        tags: None,
    }
}

fn bare_event() -> Event {
    Event {
        title: "Foo".into(),
        text: "Foo happened!".into(),
        timestamp: None,
        hostname: None,
        aggregation_key: None,
        priority: None,
        source_type: None,
        alert_type: None,
        tags: None,
    }
}

fn bare_check() -> ServiceCheck {
    ServiceCheck {
        name: "GlusterD".into(),
        status: Status::Okay,
        timestamp: None,
        hostname: None,
        tags: None,
        service_message: None,
    }
}

#[test]
fn test_metric() {
    let m = Metric {
        metric: "gluster".into(),
        name: "heal_count".into(),
        value: format!("{}", 0.0),
        m_type: MetricType::Gauge,
        sample_rate: None,
        tags: Some(foo_bar_tags()),
    };
    println!("{}", m.serialize());
    assert_eq!("gluster.heal_count:0|g|#foo,bar:baz", m.serialize());
}

#[test]
fn test_event() {
    let e = Event {
        title: "Foo".into(),
        text: "Foo happened!".into(),
        timestamp: None,
        hostname: Some("host".into()),
        aggregation_key: None,
        priority: Some(Priority::Normal),
        source_type: Some("logs".into()),
        alert_type: Some(AlertType::Error),
        tags: Some(foo_bar_tags()),
    };
    println!("{}", e.serialize());
    assert_eq!(
        "_e{3,13}:Foo|Foo happened!|h:host|p:normal|t:error|#foo,bar:baz",
        e.serialize()
    );
}

#[test]
fn test_service() {
    let s = ServiceCheck {
        name: "GlusterD".into(),
        status: Status::Okay,
        timestamp: None,
        hostname: Some("host".into()),
        tags: Some(foo_bar_tags()),
        service_message: Some("volume ok".into()),
    };
    println!("{}", s.serialize());
    assert_eq!(
        "_sc|GlusterD|0|h:host|#foo,bar:baz|m:volume ok",
        s.serialize()
    );
}

#[test]
fn metric_without_optional_fields_ends_with_its_type() {
    assert_eq!(
        "app.requests:1|c",
        bare_metric(1.0, MetricType::Counter).serialize()
    );
    assert_eq!(
        "app.requests:2.5|g",
        bare_metric(2.5, MetricType::Gauge).serialize()
    );
    assert_eq!(
        "app.requests:-3|ms",
        bare_metric(-3.0, MetricType::Timer).serialize()
    );
    assert_eq!(
        "app.requests:0.1|h",
        bare_metric(0.1, MetricType::Histogram).serialize()
    );
    assert_eq!(
        "app.requests:7|s",
        bare_metric(7.0, MetricType::UniqueSet).serialize()
    );
}

#[test]
fn metric_segments_follow_the_type_in_order() {
    let mut m = bare_metric(4.0, MetricType::Counter);
    m.sample_rate = Some(rate(0.5));
    assert_eq!("app.requests:4|c|@0.5", m.serialize());
    m.tags = Some(foo_bar_tags());
    assert_eq!("app.requests:4|c|@0.5|#foo,bar:baz", m.serialize());
    m.sample_rate = None;
    assert_eq!("app.requests:4|c|#foo,bar:baz", m.serialize());
}

#[test]
fn metric_value_is_written_as_given() {
    let mut m = bare_metric(0.0, MetricType::Gauge);
    m.value = "12345678901234567890".into();
    assert_eq!("app.requests:12345678901234567890|g", m.serialize());
    m.metric = String::new();
    m.name = String::new();
    m.value = String::new();
    assert_eq!(".:|g", m.serialize());
}

#[test]
fn metric_with_an_empty_tag_map_keeps_the_tag_marker() {
    let mut m = bare_metric(1.0, MetricType::Counter);
    m.tags = Some(IndexMap::new());
    assert_eq!("app.requests:1|c|#", m.serialize());
}

#[test]
fn event_without_optional_fields() {
    assert_eq!("_e{3,13}:Foo|Foo happened!", bare_event().serialize());
}

#[test]
fn event_line_begins_with_the_lengths() {
    let mut e = bare_event();
    e.hostname = Some("host".into());
    e.tags = Some(foo_bar_tags());
    assert!(e.serialize().starts_with("_e{3,13}:Foo|Foo happened!"));
}

#[test]
fn event_lengths_count_bytes() {
    let mut e = bare_event();
    e.title = "caf\u{e9}".into();
    e.text = "\u{20ac}\u{1f600}".into();
    assert_eq!("_e{5,7}:caf\u{e9}|\u{20ac}\u{1f600}", e.serialize());
    e.title = String::new();
    e.text = "0123456789".into();
    assert_eq!("_e{0,10}:|0123456789", e.serialize());
}

#[test]
fn event_segments_come_in_their_fixed_order() {
    let hostname_first = Event {
        title: "T".into(),
        text: "body".into(),
        hostname: Some("web-1".into()),
        priority: Some(Priority::Low),
        timestamp: Some(Timestamp::SinceEpoch(1_500_000_000)),
        alert_type: Some(AlertType::Warning),
        tags: Some(foo_bar_tags()),
        aggregation_key: None,
        source_type: None,
    };
    let priority_first = Event {
        tags: Some(foo_bar_tags()),
        alert_type: Some(AlertType::Warning),
        priority: Some(Priority::Low),
        hostname: Some("web-1".into()),
        timestamp: Some(Timestamp::SinceEpoch(1_500_000_000)),
        source_type: None,
        aggregation_key: None,
        text: "body".into(),
        title: "T".into(),
    };
    let expected = "_e{1,4}:T|body|d:1500000000000|h:web-1|p:low|t:warning|#foo,bar:baz";
    assert_eq!(expected, hostname_first.serialize());
    assert_eq!(expected, priority_first.serialize());

    let mut later = bare_event();
    later.priority = Some(Priority::Normal);
    later.hostname = Some("host".into());
    let mut sooner = bare_event();
    sooner.hostname = Some("host".into());
    sooner.priority = Some(Priority::Normal);
    assert_eq!(later.serialize(), sooner.serialize());
    assert_eq!("_e{3,13}:Foo|Foo happened!|h:host|p:normal", later.serialize());
}

#[test]
fn event_each_segment_alone() {
    let mut e = bare_event();
    e.timestamp = Some(Timestamp::SinceEpoch(12));
    assert_eq!("_e{3,13}:Foo|Foo happened!|d:12000", e.serialize());
    let mut e = bare_event();
    e.hostname = Some("h1".into());
    assert_eq!("_e{3,13}:Foo|Foo happened!|h:h1", e.serialize());
    let mut e = bare_event();
    e.priority = Some(Priority::Low);
    assert_eq!("_e{3,13}:Foo|Foo happened!|p:low", e.serialize());
    let mut e = bare_event();
    e.alert_type = Some(AlertType::Success);
    assert_eq!("_e{3,13}:Foo|Foo happened!|t:success", e.serialize());
    let mut e = bare_event();
    e.tags = Some(foo_bar_tags());
    assert_eq!("_e{3,13}:Foo|Foo happened!|#foo,bar:baz", e.serialize());
}

#[test]
fn event_aggregation_key_and_source_type_are_not_written() {
    let mut e = bare_event();
    let plain = e.serialize();
    e.aggregation_key = Some("group".into());
    e.source_type = Some("logs".into());
    assert_eq!(plain, e.serialize());
    assert_eq!("_e{3,13}:Foo|Foo happened!", e.serialize());
}

#[test]
fn service_check_without_optional_fields() {
    assert_eq!("_sc|GlusterD|0", bare_check().serialize());
}

#[test]
fn service_check_segments_come_in_their_fixed_order() {
    let s = ServiceCheck {
        service_message: Some("volume ok".into()),
        tags: Some(foo_bar_tags()),
        hostname: Some("host".into()),
        timestamp: Some(Timestamp::SinceEpoch(1)),
        status: Status::Critical,
        name: "GlusterD".into(),
    };
    assert_eq!(
        "_sc|GlusterD|2|d:1000|h:host|#foo,bar:baz|m:volume ok",
        s.serialize()
    );
}

#[test]
fn service_check_each_segment_alone() {
    let mut s = bare_check();
    s.timestamp = Some(Timestamp::SinceEpoch(0));
    assert_eq!("_sc|GlusterD|0|d:0", s.serialize());
    let mut s = bare_check();
    s.hostname = Some("host".into());
    assert_eq!("_sc|GlusterD|0|h:host", s.serialize());
    let mut s = bare_check();
    s.tags = Some(foo_bar_tags());
    assert_eq!("_sc|GlusterD|0|#foo,bar:baz", s.serialize());
    let mut s = bare_check();
    s.service_message = Some("down".into());
    assert_eq!("_sc|GlusterD|0|m:down", s.serialize());
}

#[test]
fn service_check_status_codes() {
    let mut s = bare_check();
    s.status = Status::Warning;
    assert_eq!("_sc|GlusterD|1", s.serialize());
    s.status = Status::Critical;
    assert_eq!("_sc|GlusterD|2", s.serialize());
    s.status = Status::Unknown;
    assert_eq!("_sc|GlusterD|3", s.serialize());
}

#[test]
fn timestamp_is_written_in_milliseconds() {
    let mut s = bare_check();
    s.timestamp = Some(Timestamp::SinceEpoch(1_700_000_000));
    assert_eq!("_sc|GlusterD|0|d:1700000000000", s.serialize());
    s.timestamp = Some(Timestamp::SinceEpoch(u64::MAX));
    assert_eq!("_sc|GlusterD|0|d:18446744073709551615000", s.serialize());
}

#[test]
fn serializing_twice_gives_the_same_line() {
    let m = Metric {
        metric: "gluster".into(),
        name: "heal_count".into(),
        value: format!("{}", 0.25),
        m_type: MetricType::Histogram,
        sample_rate: Some(rate(1.0)),
        tags: Some(foo_bar_tags()),
    };
    let first = m.serialize();
    let second = m.serialize();
    assert_eq!(first, second);
    assert_eq!("gluster.heal_count:0.25|h|@1|#foo,bar:baz", first);

    let mut e = bare_event();
    e.timestamp = Some(Timestamp::SinceEpoch(3));
    assert_eq!(e.serialize(), e.serialize());

    let mut s = bare_check();
    s.service_message = Some("ok".into());
    assert_eq!(s.serialize(), s.serialize());
}
