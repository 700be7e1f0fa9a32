use newsletter::filter::Ambient;
use newsletter::format::Sink;
use newsletter::telemetry::{get_subscriber, init_subscriber};

#[test]
fn a_subscriber_on_standard_error_is_taken() {
    let subscriber =
        get_subscriber("newsletter".to_string(), "info".to_string(), &Ambient::Absent, Sink::Stderr)
            .expect("a subscriber");
    assert_eq!(init_subscriber(subscriber), Ok(()));
    assert!(tracing::dispatcher::has_been_set());
}
