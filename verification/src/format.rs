//! How log events are rendered: one plan for each kind of rendering.

use crate::logger::Logger;
use vstd::prelude::*;

verus! {

/// Where records are written.
#[derive(Clone, Copy, Debug, PartialEq, Eq, Structural)]
pub enum Sink {
    /// Standard output.
    Stdout,
    /// Standard error.
    Stderr,
    /// Nowhere: the records are dropped.
    Null,
}

/// The context that a rendering prints beside each event.
#[derive(Clone, Copy, Debug, PartialEq, Eq, Structural)]
pub struct ContextFields {
    /// The time of the event.
    pub time: bool,
    /// The module that the event comes from.
    pub target: bool,
    /// The number of the thread.
    pub thread_ids: bool,
    /// The name of the thread.
    pub thread_names: bool,
    /// The source file.
    pub file: bool,
    /// The line in the source file.
    pub line_number: bool,
}

/// One rendering pipeline, as it is handed to the renderer.
#[derive(Clone, Copy, Debug, PartialEq, Eq, Structural)]
pub struct FormatPlan {
    /// The kind of rendering.
    pub style: Logger,
    /// Where the rendering is written.
    pub sink: Sink,
    /// Whether colour codes are written.
    pub ansi: bool,
    /// The context to print, where the plan settles it; `None` leaves the
    /// renderer's own choice for the kind untouched.
    pub fields: Option<ContextFields>,
}

/// No context at all.
pub open spec fn bare_context() -> ContextFields {
    ContextFields {
        time: false,
        target: false,
        thread_ids: false,
        thread_names: false,
        file: false,
        line_number: false,
    }
}

/// The plan of a kind of rendering. Every kind writes to standard error, in
/// colour exactly where that is an interactive terminal. Only the compact
/// rendering settles the context, and it prints none.
pub open spec fn format_plan(kind: Logger, interactive: bool) -> FormatPlan {
    FormatPlan {
        style: kind,
        sink: Sink::Stderr,
        ansi: interactive,
        fields: if kind == Logger::Compact {
            Some(bare_context())
        } else {
            None
        },
    }
}

impl ContextFields {
    /// Builds `bare_context`.
    pub fn bare() -> (res: ContextFields)
        ensures
            res == bare_context(),
    {
        ContextFields {
            time: false,
            target: false,
            thread_ids: false,
            thread_names: false,
            file: false,
            line_number: false,
        }
    }
}

impl FormatPlan {
    /// Whether the plan can be handed to the renderer: it writes to standard
    /// error, and settles the context exactly for the compact rendering,
    /// which prints no time.
    pub open spec fn renderable(self) -> bool {
        &&& self.sink == Sink::Stderr
        &&& self.style == Logger::Compact ==> self.fields is Some && !self.fields->Some_0.time
        &&& self.style != Logger::Compact ==> self.fields is None
    }
}

/// The plan of every kind can be handed to the renderer.
pub proof fn lemma_plans_are_renderable(kind: Logger, interactive: bool)
    ensures
        format_plan(kind, interactive).renderable(),
{
}

/// The kinds exclude each other: a plan is the plan of one kind only, and of
/// one sort of destination.
pub proof fn lemma_plan_tells_kind(first: Logger, second: Logger, a: bool, b: bool)
    requires
        format_plan(first, a) == format_plan(second, b),
    ensures
        first == second,
        a == b,
{
}

} // verus!
