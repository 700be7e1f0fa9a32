//! Making a subscriber the sink of the process.
//!
//! The sink is state that `tracing` and `log` keep for the process: each can
//! be set once, and a later attempt is refused. Nothing in this file is
//! proved. Whether an installation succeeds depends on what the process did
//! before, so no contract here promises it; each installer says, by what it
//! asks of its argument, which subscriber it is for.
//!
//! `try_init` sets the sink of `tracing` first and the logger of `log`
//! second, and fails where the process refuses either. So it can fail with
//! the sink taken: where the process had a logger and no sink.

use crate::format::{ContextFields, Sink};
use crate::logger::Logger;
use crate::telemetry::{Pipeline, Subscriber};
use tracing_bunyan_formatter::{BunyanFormattingLayer, JsonStorageLayer};
use tracing_error::ErrorLayer;
use tracing_log::LogTracer;
use tracing_subscriber::fmt::Layer;
use tracing_subscriber::layer::SubscriberExt;
use tracing_subscriber::util::SubscriberInitExt;
use tracing_subscriber::Registry;
use vstd::prelude::*;

verus! {

/// Composes a registry with the filter, an `ErrorLayer` and the compact
/// renderer of `tracing_subscriber::fmt` on standard error, and calls
/// `try_init` on it. Returns whether `try_init` succeeded.
#[verifier::external_body]
pub(crate) fn install_compact(pipeline: Pipeline, fields: &ContextFields) -> (installed: bool)
    requires
        pipeline.plan.style == Logger::Compact,
        pipeline.plan.sink == Sink::Stderr,
        pipeline.plan.fields == Some(*fields),
        !fields.time,
{
    let layer = Layer::new().with_ansi(pipeline.plan.ansi).with_writer(std::io::stderr).compact();
    let layer = layer.without_time().with_target(fields.target);
    let layer = layer.with_thread_ids(fields.thread_ids).with_thread_names(fields.thread_names);
    let layer = layer.with_file(fields.file).with_line_number(fields.line_number);
    let registry = tracing_subscriber::registry().with(pipeline.filter).with(ErrorLayer::default());
    registry.with(layer).try_init().is_ok()
}

/// Composes a registry with the filter, an `ErrorLayer` and the renderer of
/// `tracing_subscriber::fmt` as it comes, on standard error, and calls
/// `try_init` on it. Returns whether `try_init` succeeded.
#[verifier::external_body]
pub(crate) fn install_full(pipeline: Pipeline) -> (installed: bool)
    requires
        pipeline.plan.style == Logger::Full,
        pipeline.plan.sink == Sink::Stderr,
        pipeline.plan.fields is None,
{
    let layer = Layer::new().with_ansi(pipeline.plan.ansi).with_writer(std::io::stderr);
    let registry = tracing_subscriber::registry().with(pipeline.filter).with(ErrorLayer::default());
    registry.with(layer).try_init().is_ok()
}

/// Composes a registry with the filter, an `ErrorLayer` and the pretty
/// renderer of `tracing_subscriber::fmt` on standard error, and calls
/// `try_init` on it. Returns whether `try_init` succeeded.
#[verifier::external_body]
pub(crate) fn install_pretty(pipeline: Pipeline) -> (installed: bool)
    requires
        pipeline.plan.style == Logger::Pretty,
        pipeline.plan.sink == Sink::Stderr,
        pipeline.plan.fields is None,
{
    let layer = Layer::new().with_ansi(pipeline.plan.ansi).with_writer(std::io::stderr).pretty();
    let registry = tracing_subscriber::registry().with(pipeline.filter).with(ErrorLayer::default());
    registry.with(layer).try_init().is_ok()
}

/// Composes a registry with the filter, an `ErrorLayer` and the JSON
/// renderer of `tracing_subscriber::fmt` on standard error, and calls
/// `try_init` on it. Returns whether `try_init` succeeded.
#[verifier::external_body]
pub(crate) fn install_json(pipeline: Pipeline) -> (installed: bool)
    requires
        pipeline.plan.style == Logger::Json,
        pipeline.plan.sink == Sink::Stderr,
        pipeline.plan.fields is None,
{
    let layer = Layer::new().with_ansi(pipeline.plan.ansi).with_writer(std::io::stderr).json();
    let registry = tracing_subscriber::registry().with(pipeline.filter).with(ErrorLayer::default());
    registry.with(layer).try_init().is_ok()
}

/// Calls `LogTracer::init`, which turns the records of the `log` crate into
/// events of `tracing`. Returns whether the process took the bridge as its
/// logger.
#[verifier::external_body]
pub(crate) fn bridge_log() -> (bridged: bool) {
    LogTracer::init().is_ok()
}

/// Composes a registry with the subscriber's filter, a `JsonStorageLayer`
/// and a `BunyanFormattingLayer` on standard output, and calls
/// `tracing::subscriber::set_global_default` on it. Returns whether the
/// process took it as its sink.
#[verifier::external_body]
pub(crate) fn install_on_stdout(subscriber: Subscriber) -> (installed: bool)
    requires
        subscriber.sink == Sink::Stdout,
{
    let layer = BunyanFormattingLayer::new(subscriber.name, std::io::stdout);
    let composed = Registry::default().with(subscriber.filter).with(JsonStorageLayer).with(layer);
    tracing::subscriber::set_global_default(composed).is_ok()
}

/// Composes a registry with the subscriber's filter, a `JsonStorageLayer`
/// and a `BunyanFormattingLayer` on standard error, and calls
/// `tracing::subscriber::set_global_default` on it. Returns whether the
/// process took it as its sink.
#[verifier::external_body]
pub(crate) fn install_on_stderr(subscriber: Subscriber) -> (installed: bool)
    requires
        subscriber.sink == Sink::Stderr,
{
    let layer = BunyanFormattingLayer::new(subscriber.name, std::io::stderr);
    let composed = Registry::default().with(subscriber.filter).with(JsonStorageLayer).with(layer);
    tracing::subscriber::set_global_default(composed).is_ok()
}

/// Composes a registry with the subscriber's filter, a `JsonStorageLayer`
/// and a `BunyanFormattingLayer` that drops what it is given, and calls
/// `tracing::subscriber::set_global_default` on it. Returns whether the
/// process took it as its sink.
#[verifier::external_body]
pub(crate) fn install_on_null(subscriber: Subscriber) -> (installed: bool)
    requires
        subscriber.sink == Sink::Null,
{
    let layer = BunyanFormattingLayer::new(subscriber.name, std::io::sink);
    let composed = Registry::default().with(subscriber.filter).with(JsonStorageLayer).with(layer);
    tracing::subscriber::set_global_default(composed).is_ok()
}

} // verus!
