use newsletter::filter::Ambient;
use newsletter::format::Sink;
use newsletter::telemetry::{get_subscriber, init_subscriber, InitError};

fn subscriber(sink: Sink) -> newsletter::telemetry::Subscriber {
    get_subscriber("test".to_string(), "info".to_string(), &Ambient::Absent, sink)
        .expect("a subscriber")
}

#[test]
fn a_second_subscriber_is_refused() {
    assert_eq!(init_subscriber(subscriber(Sink::Null)), Ok(()));
    assert_eq!(init_subscriber(subscriber(Sink::Null)), Err(InitError::Logger));
    assert_eq!(init_subscriber(subscriber(Sink::Stdout)), Err(InitError::Logger));
    assert_eq!(init_subscriber(subscriber(Sink::Stderr)), Err(InitError::Logger));
}
