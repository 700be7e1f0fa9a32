use newsletter::filter::{default_directive, level_of, target_of, Ambient, FilterError};
use newsletter::logger::Logger;
use newsletter::telemetry::Instrumentation;
use tracing_subscriber::filter::{Directive, EnvFilter};

fn knobs(verbose: u8, directives: &[&str]) -> Instrumentation {
    Instrumentation {
        verbose,
        logger: Logger::Compact,
        log_directives: directives
            .iter()
            .map(|text| text.parse::<Directive>().expect("a directive"))
            .collect(),
    }
}

fn text(value: &str) -> Ambient {
    Ambient::Text(value.to_string())
}

#[test]
fn verbosity_zero_is_info() {
    assert_eq!(knobs(0, &[]).log_level(), "info");
    assert_eq!(level_of(0), "info");
}

#[test]
fn verbosity_one_is_debug() {
    assert_eq!(knobs(1, &[]).log_level(), "debug");
    assert_eq!(level_of(1), "debug");
}

#[test]
fn verbosity_two_and_more_is_trace() {
    for verbose in [2u8, 3, 4, 17, 254, 255] {
        assert_eq!(knobs(verbose, &[]).log_level(), "trace");
        assert_eq!(level_of(verbose), "trace");
    }
}

#[test]
fn default_knobs_are_quiet_and_compact() {
    let knobs = Instrumentation::default();
    assert_eq!(knobs.verbose, 0);
    assert_eq!(knobs.logger, Logger::Compact);
    assert!(knobs.log_directives.is_empty());
    assert_eq!(knobs.log_level(), "info");
}

#[test]
fn hyphens_of_a_package_become_underscores() {
    assert_eq!(target_of("newsletter"), "newsletter");
    assert_eq!(target_of("my-fancy-lib"), "my_fancy_lib");
    assert_eq!(target_of("-"), "_");
    assert_eq!(target_of(""), "");
    assert_eq!(target_of("caf\u{e9}-au-lait"), "caf\u{e9}_au_lait");
}

#[test]
fn default_directive_names_the_service_and_the_level() {
    assert_eq!(default_directive(0), "newsletter=info");
    assert_eq!(default_directive(1), "newsletter=debug");
    assert_eq!(default_directive(2), "newsletter=trace");
    assert_eq!(default_directive(200), "newsletter=trace");
}

#[test]
fn absent_ambient_without_directives_gives_the_default() {
    let filter = knobs(0, &[]).filter_layer(&Ambient::Absent).expect("a filter");
    assert_eq!(filter.to_string(), "newsletter=info");
    let filter = knobs(1, &[]).filter_layer(&Ambient::Absent).expect("a filter");
    assert_eq!(filter.to_string(), "newsletter=debug");
    let filter = knobs(5, &[]).filter_layer(&Ambient::Absent).expect("a filter");
    assert_eq!(filter.to_string(), "newsletter=trace");
}

#[test]
fn absent_ambient_with_directives_injects_no_default() {
    let filter = knobs(0, &["hyper=warn"]).filter_layer(&Ambient::Absent).expect("a filter");
    assert_eq!(filter.to_string(), "hyper=warn");
    let filter = knobs(2, &["hyper=warn"]).filter_layer(&Ambient::Absent).expect("a filter");
    assert_eq!(filter.to_string(), "hyper=warn");
}

#[test]
fn every_explicit_directive_is_layered() {
    let filter = knobs(0, &["hyper=warn", "newsletter=trace", "[request{id}]=debug"])
        .filter_layer(&Ambient::Absent)
        .expect("a filter");
    let rendered = filter.to_string();
    let parts: Vec<&str> = rendered.split(',').collect();
    assert_eq!(parts.len(), 3);
    assert!(parts.contains(&"hyper=warn"));
    assert!(parts.contains(&"newsletter=trace"));
    assert_eq!(rendered, "newsletter=trace,hyper=warn,[request{id}]=debug");
}

#[test]
fn ambient_and_directives_merge() {
    let filter = knobs(0, &["newsletter=debug"]).filter_layer(&text("warn")).expect("a filter");
    assert_eq!(filter.to_string(), "newsletter=debug,warn");
    let by_hand = EnvFilter::try_new("warn")
        .expect("a filter")
        .add_directive("newsletter=debug".parse().expect("a directive"));
    assert_eq!(filter.to_string(), by_hand.to_string());
    assert_ne!(filter.to_string(), EnvFilter::try_new("warn").expect("a filter").to_string());
}

#[test]
fn ambient_wins_over_verbosity() {
    let filter = knobs(2, &[]).filter_layer(&text("hyper=error")).expect("a filter");
    assert_eq!(filter.to_string(), "hyper=error");
}

#[test]
fn a_later_directive_on_the_same_target_stands() {
    let filter =
        knobs(0, &["newsletter=trace"]).filter_layer(&text("newsletter=info")).expect("a filter");
    assert_eq!(filter.to_string(), "newsletter=trace");
    let filter = knobs(0, &["newsletter=trace", "newsletter=warn"])
        .filter_layer(&Ambient::Absent)
        .expect("a filter");
    assert_eq!(filter.to_string(), "newsletter=warn");
}

#[test]
fn empty_ambient_is_an_empty_base() {
    let filter = knobs(2, &[]).filter_layer(&text("")).expect("a filter");
    assert_eq!(filter.to_string(), "");
    let filter = knobs(2, &["hyper=info"]).filter_layer(&text("")).expect("a filter");
    assert_eq!(filter.to_string(), "hyper=info");
}

#[test]
fn ambient_with_several_directives_is_taken_whole() {
    let filter = knobs(0, &[]).filter_layer(&text("info,hyper=warn")).expect("a filter");
    assert_eq!(filter.to_string(), "hyper=warn,info");
}

#[test]
fn malformed_ambient_is_an_error() {
    let res = knobs(0, &[]).filter_layer(&text("a=b=c"));
    let error = res.expect_err("a malformed filter");
    assert!(matches!(error, FilterError::AmbientMalformed(_)));
    assert!(error.blames_ambient());
    assert_eq!(error.context(), Some("parsing directives"));
    let cause = error.cause().expect("the refusal of the grammar");
    assert_eq!(cause.to_string(), EnvFilter::try_new("a=b=c").unwrap_err().to_string());
}

#[test]
fn malformed_ambient_is_told_apart_from_absence() {
    let knobs = knobs(0, &[]);
    assert!(knobs.filter_layer(&text("newsletter=loud")).is_err());
    assert!(knobs.filter_layer(&Ambient::Absent).is_ok());
}

#[test]
fn malformed_ambient_fails_beside_explicit_directives_too() {
    let res = knobs(0, &["hyper=warn"]).filter_layer(&text("[unclosed"));
    assert!(matches!(res, Err(FilterError::AmbientMalformed(_))));
}

#[test]
fn unreadable_ambient_is_an_error() {
    let error = knobs(0, &[]).filter_layer(&Ambient::Unreadable).expect_err("no text");
    assert!(matches!(error, FilterError::AmbientUnreadable));
    assert!(error.blames_ambient());
    assert_eq!(error.context(), Some("parsing directives"));
    assert!(error.cause().is_none());
}

#[test]
fn ambient_that_the_grammar_cannot_be_handed_is_an_error() {
    let error = knobs(0, &[]).filter_layer(&text(" \u{e9}=info")).expect_err("no filter");
    assert!(matches!(error, FilterError::AmbientUnreadable));
    let error =
        knobs(0, &[]).filter_layer(&text("info,\u{3000}caf\u{e9}=info")).expect_err("no filter");
    assert!(matches!(error, FilterError::AmbientUnreadable));
}

#[test]
fn ambient_beyond_ascii_is_read_where_its_segments_are_flush() {
    let filter = knobs(0, &[]).filter_layer(&text("caf\u{e9}=info")).expect("a filter");
    assert_eq!(filter.to_string(), "caf\u{e9}=info");
}

#[test]
fn without_an_ambient_filter_every_resolution_succeeds() {
    for verbose in 0..=u8::MAX {
        assert!(knobs(verbose, &[]).filter_layer(&Ambient::Absent).is_ok());
        assert!(knobs(verbose, &["hyper=warn"]).filter_layer(&Ambient::Absent).is_ok());
    }
}

#[test]
fn a_faulty_ambient_filter_fails_whatever_the_knobs() {
    for verbose in [0u8, 1, 2, 255] {
        for directives in [&[][..], &["hyper=warn"][..], &["info", "newsletter=trace"][..]] {
            let knobs = knobs(verbose, directives);
            assert!(knobs.filter_layer(&text("a=b=c")).is_err());
            assert!(knobs.filter_layer(&text(" \u{e9}")).is_err());
            assert!(knobs.filter_layer(&Ambient::Unreadable).is_err());
            assert!(knobs.filter_layer(&Ambient::Absent).is_ok());
            assert!(knobs.filter_layer(&text("warn")).is_ok());
        }
    }
}

#[test]
fn a_target_at_a_named_level_is_always_taken() {
    for target in ["newsletter", "a", "Z", "_", "hyper_util", "h2", "0", "info", "A_b_9"] {
        for level in ["trace", "debug", "info", "warn", "error", "off"] {
            let ambient = text(&format!("{}={}", target, level));
            let filter = knobs(0, &[]).filter_layer(&ambient).expect("a filter");
            assert_eq!(filter.to_string(), format!("{}={}", target, level));
        }
    }
}
