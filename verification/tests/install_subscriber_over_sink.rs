use newsletter::filter::Ambient;
use newsletter::format::Sink;
use newsletter::telemetry::{get_subscriber, init_subscriber, InitError};

#[test]
fn a_subscriber_is_refused_where_the_process_has_a_sink() {
    tracing::subscriber::set_global_default(tracing_subscriber::registry()).expect("a free sink");
    let subscriber =
        get_subscriber("test".to_string(), "info".to_string(), &Ambient::Absent, Sink::Null)
            .expect("a subscriber");
    assert_eq!(init_subscriber(subscriber), Err(InitError::Subscriber));
}
