use perfprox::metrics::{Metric, Sample};

#[test]
fn labels_match_the_stats_sink_names() {
    assert_eq!(Metric::Okay.label(), "ok");
    assert_eq!(Metric::Error.label(), "error");
    assert_eq!(Metric::Close.label(), "close");
    assert_eq!(Metric::Connect.label(), "connect");
    assert_eq!(Metric::Frontend.label(), "frontend");
    assert_eq!(Metric::Backend.label(), "backend");
}

#[test]
fn samples_carry_their_fields() {
    let s = Sample { start: 3, stop: 9, metric: Metric::Frontend };
    assert_eq!(s.start, 3);
    assert_eq!(s.stop, 9);
    assert_eq!(s.metric, Metric::Frontend);
    assert!(s.start < s.stop);
}
