use newsletter::filter::Ambient;
use newsletter::logger::Logger;
use newsletter::telemetry::{Instrumentation, SetupError};

#[test]
fn the_json_rendering_is_installed_once() {
    let knobs = Instrumentation { verbose: 1, logger: Logger::Json, log_directives: Vec::new() };
    assert!(!tracing::dispatcher::has_been_set());
    assert!(knobs.setup(&Ambient::Absent, false).is_ok());
    assert!(tracing::dispatcher::has_been_set());
    let again = knobs.setup(&Ambient::Absent, false);
    assert!(matches!(again, Err(SetupError::AlreadyInstalled)));
}
