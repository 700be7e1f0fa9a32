use newsletter::filter::Ambient;
use newsletter::format::Sink;
use newsletter::telemetry::{get_subscriber, init_subscriber, Instrumentation, SetupError};

#[test]
fn the_two_ways_of_installing_exclude_each_other() {
    let subscriber =
        get_subscriber("test".to_string(), "info".to_string(), &Ambient::Absent, Sink::Null)
            .expect("a subscriber");
    assert_eq!(init_subscriber(subscriber), Ok(()));
    let res = Instrumentation::default().setup(&Ambient::Absent, false);
    assert!(matches!(res, Err(SetupError::AlreadyInstalled)));
}
