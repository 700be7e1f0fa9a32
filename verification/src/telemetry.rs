//! The instrumentation of the process: the knobs it is started with, the
//! subscriber they resolve to, and its installation as the sink of the
//! process.

use crate::filter::{
    base_filter, default_directive, fallback_text, layered, lemma_default_text_is_plain, level_name,
    level_of, resolved, Ambient, FilterError,
};
use crate::format::{bare_context, format_plan, ContextFields, FormatPlan, Sink};
use crate::grammar::{
    add_directive, lenient_filter, parse_filter, parse_filter_lenient, parsed_filter,
};
use crate::install::{
    bridge_log, install_compact, install_full, install_json, install_on_null, install_on_stderr,
    install_on_stdout, install_pretty,
};
use crate::logger::Logger;
use crate::text::{is_parse_ready, parse_ready};
use tracing_subscriber::filter::{Directive, EnvFilter};
use vstd::prelude::*;
use vstd::string::*;

verus! {

/// A subscriber that writes Bunyan records: what it is named, what it lets
/// through, and where it writes.
#[derive(Debug)]
pub struct Subscriber {
    /// The name that every record carries.
    pub name: String,
    /// The filter that spans and events must pass.
    pub filter: EnvFilter,
    /// The destination of the records.
    pub sink: Sink,
}

/// A subscriber that renders events as text: what it lets through, and how
/// it renders. It also records the spans in which an error arose.
#[derive(Debug)]
pub struct Pipeline {
    /// The filter that spans and events must pass.
    pub filter: EnvFilter,
    /// The rendering.
    pub plan: FormatPlan,
}

/// Why the instrumentation could not be set up.
#[derive(Debug)]
pub enum SetupError {
    /// No filter could be resolved.
    Filter(FilterError),
    /// The process refused the installation: its sink, or its logger, was
    /// set before.
    AlreadyInstalled,
}

/// Why a subscriber could not be made the sink of the process.
#[derive(Clone, Copy, Debug, PartialEq, Eq, Structural)]
pub enum InitError {
    /// The process has a logger already, so the records of the `log` crate
    /// could not be led to the subscriber.
    Logger,
    /// The process has a sink already.
    Subscriber,
}

/// The instrumentation knobs, set once when the process starts and only read
/// afterwards.
#[derive(Debug)]
pub struct Instrumentation {
    /// How often the verbosity flag was given.
    pub verbose: u8,
    /// The rendering to log in.
    pub logger: Logger,
    /// The directives given explicitly, in the order in which they were given.
    pub log_directives: Vec<Directive>,
}

/// The filter of a Bunyan subscriber. The environment's filter is the one
/// where there is one, and a fault in it is an error, not an absence. Only
/// where the environment holds none is the given filter used, read
/// leniently.
pub open spec fn subscriber_filter(ambient: Ambient, env_filter: Seq<char>) -> Result<
    EnvFilter,
    FilterError,
> {
    match ambient {
        Ambient::Text(text) => if !parse_ready(text@) {
            Err(FilterError::AmbientUnreadable)
        } else {
            match parsed_filter(text@) {
                Ok(filter) => Ok(filter),
                Err(e) => Err(FilterError::AmbientMalformed(e)),
            }
        },
        Ambient::Unreadable => Err(FilterError::AmbientUnreadable),
        Ambient::Absent => Ok(lenient_filter(env_filter)),
    }
}

/// What setting up the instrumentation comes to, given whether the
/// installation went through.
pub open spec fn setup_verdict(installed: bool) -> Result<(), SetupError> {
    if installed {
        Ok(())
    } else {
        Err(SetupError::AlreadyInstalled)
    }
}

/// What installing a subscriber comes to, given whether the process took the
/// bridge from the `log` crate, and whether it then took the sink.
pub open spec fn init_verdict(bridged: bool, installed: bool) -> Result<(), InitError> {
    if !bridged {
        Err(InitError::Logger)
    } else if !installed {
        Err(InitError::Subscriber)
    } else {
        Ok(())
    }
}

/// Computes `setup_verdict`. Success is reported exactly where the
/// installation went through: a refused one never passes for a successful
/// one.
pub fn setup_outcome(installed: bool) -> (res: Result<(), SetupError>)
    ensures
        res == setup_verdict(installed),
        res is Ok <==> installed,
{
    if installed {
        Ok(())
    } else {
        Err(SetupError::AlreadyInstalled)
    }
}

/// Computes `init_verdict`. Success is reported exactly where the process
/// took both the bridge and the sink.
pub fn init_outcome(bridged: bool, installed: bool) -> (res: Result<(), InitError>)
    ensures
        res == init_verdict(bridged, installed),
        res is Ok <==> bridged && installed,
{
    if !bridged {
        Err(InitError::Logger)
    } else if !installed {
        Err(InitError::Subscriber)
    } else {
        Ok(())
    }
}

/// Describes the subscriber of the process: Bunyan records under `name`,
/// written to `sink`, and filtered by the environment's filter, or by
/// `env_filter` where the environment holds none.
///
/// A fault in the environment's filter is reported, and no subscriber is
/// described: it is never made up for by `env_filter`.
pub fn get_subscriber(name: String, env_filter: String, ambient: &Ambient, sink: Sink) -> (res:
    Result<Subscriber, FilterError>)
    requires
        *ambient is Absent ==> parse_ready(env_filter@),
    ensures
        match subscriber_filter(*ambient, env_filter@) {
            Ok(filter) => res == Ok::<Subscriber, FilterError>(Subscriber { name, filter, sink }),
            Err(e) => res == Err::<Subscriber, FilterError>(e),
        },
        res is Err <==> ambient.is_faulty(),
        res is Err ==> res->Err_0.is_ambient(),
{
    let filter = match ambient {
        Ambient::Text(text) => {
            if !is_parse_ready(text.as_str()) {
                return Err(FilterError::AmbientUnreadable);
            }
            match parse_filter(text.as_str()) {
                Ok(filter) => filter,
                Err(e) => {
                    return Err(FilterError::AmbientMalformed(e));
                },
            }
        },
        Ambient::Unreadable => {
            return Err(FilterError::AmbientUnreadable);
        },
        Ambient::Absent => parse_filter_lenient(env_filter.as_str()),
    };
    Ok(Subscriber { name, filter, sink })
}

/// A fault in the environment's filter is told apart from its absence: with
/// one, no subscriber is described and the error blames the environment;
/// without a filter in the environment, a subscriber always is.
pub proof fn lemma_subscriber_tells_fault_from_absence(ambient: Ambient, env_filter: Seq<char>)
    requires
        ambient.is_faulty(),
    ensures
        subscriber_filter(ambient, env_filter) is Err,
        subscriber_filter(ambient, env_filter)->Err_0.is_ambient(),
        subscriber_filter(Ambient::Absent, env_filter) is Ok,
{
}

/// Makes the subscriber the sink of the process: first the bridge from the
/// `log` crate, then the subscriber itself. Each step fails where the
/// process has taken one before, and the subscriber is not tried without the
/// bridge. Whether the process takes them is for the process to say: see
/// `init_outcome` for what is returned in each case.
pub fn init_subscriber(subscriber: Subscriber) -> (res: Result<(), InitError>)
    ensures
        res is Ok || res == Err::<(), InitError>(InitError::Logger) || res == Err::<(), InitError>(
            InitError::Subscriber,
        ),
{
    if !bridge_log() {
        return init_outcome(false, false);
    }
    let installed = match subscriber.sink {
        Sink::Stdout => install_on_stdout(subscriber),
        Sink::Stderr => install_on_stderr(subscriber),
        Sink::Null => install_on_null(subscriber),
    };
    init_outcome(true, installed)
}

impl Pipeline {
    /// Makes the pipeline the sink of the process. Whether the process takes
    /// it is for the process to say: see `setup_outcome` for what is
    /// returned in each case.
    pub fn install(self) -> (res: Result<(), SetupError>)
        requires
            self.plan.renderable(),
        ensures
            res is Ok || res matches Err(SetupError::AlreadyInstalled),
    {
        let installed = match self.plan.style {
            Logger::Compact => match self.plan.fields {
                Some(fields) => install_compact(self, &fields),
                None => unreached(),
            },
            Logger::Full => install_full(self),
            Logger::Pretty => install_pretty(self),
            Logger::Json => install_json(self),
        };
        setup_outcome(installed)
    }
}

impl Default for Instrumentation {
    /// No verbosity, the default rendering, no directives.
    fn default() -> (res: Instrumentation)
        ensures
            res.verbose == 0,
            res.logger == Logger::Compact,
            res.log_directives@.len() == 0,
    {
        Instrumentation { verbose: 0, logger: Logger::Compact, log_directives: Vec::new() }
    }
}

impl Instrumentation {
    /// The level that the verbosity stands for: `info`, `debug` for one flag,
    /// `trace` for two or more.
    pub fn log_level(&self) -> (res: String)
        ensures
            res@ == level_name(self.verbose),
            self.verbose == 0 ==> res@ == "info"@,
            self.verbose == 1 ==> res@ == "debug"@,
            self.verbose >= 2 ==> res@ == "trace"@,
    {
        level_of(self.verbose).to_owned()
    }

    /// Sets up the instrumentation: resolves the filter, and makes it, with
    /// the rendering of the selected kind, the sink of the process.
    /// `interactive` says whether standard error is a terminal.
    ///
    /// Without a filter nothing is installed. With one, the result tells
    /// whether the process took the sink.
    pub fn setup(&self, ambient: &Ambient, interactive: bool) -> (res: Result<(), SetupError>)
        ensures
            match resolved(*ambient, self.verbose, self.log_directives@) {
                Ok(_) => res is Ok || res matches Err(SetupError::AlreadyInstalled),
                Err(e) => res matches Err(SetupError::Filter(f)) && f == e,
            },
            res matches Err(SetupError::Filter(_)) <==> ambient.is_faulty(),
    {
        match self.pipeline(ambient, interactive) {
            Ok(pipeline) => pipeline.install(),
            Err(e) => Err(SetupError::Filter(e)),
        }
    }

    /// The subscriber that the knobs resolve to: the resolved filter and the
    /// rendering of the selected kind.
    pub fn pipeline(&self, ambient: &Ambient, interactive: bool) -> (res: Result<
        Pipeline,
        FilterError,
    >)
        ensures
            match resolved(*ambient, self.verbose, self.log_directives@) {
                Ok(filter) => res == Ok::<Pipeline, FilterError>(
                    Pipeline { filter, plan: format_plan(self.logger, interactive) },
                ),
                Err(e) => res == Err::<Pipeline, FilterError>(e),
            },
            res is Ok ==> res->Ok_0.plan.renderable(),
            res is Err <==> ambient.is_faulty(),
    {
        let filter = match self.filter_layer(ambient) {
            Ok(filter) => filter,
            Err(e) => {
                return Err(e);
            },
        };
        let plan = match self.logger {
            Logger::Compact => self.fmt_layer_compact(interactive),
            Logger::Full => self.fmt_layer_full(interactive),
            Logger::Pretty => self.fmt_layer_pretty(interactive),
            Logger::Json => self.fmt_layer_json(interactive),
        };
        Ok(Pipeline { filter, plan })
    }

    /// Resolves the filter that the process logs under.
    ///
    /// The environment's filter is the base where there is one, and a fault
    /// in it is an error, not an absence. Without one, the base is the
    /// default of the verbosity, or empty where directives were given. The
    /// directives are layered on the base in their order.
    pub fn filter_layer(&self, ambient: &Ambient) -> (res: Result<EnvFilter, FilterError>)
        ensures
            res == resolved(*ambient, self.verbose, self.log_directives@),
            res is Err <==> ambient.is_faulty(),
            res is Err ==> res->Err_0.is_ambient(),
    {
        let ghost count = self.log_directives@.len();
        let base = match ambient {
            Ambient::Text(text) => {
                if !is_parse_ready(text.as_str()) {
                    return Err(FilterError::AmbientUnreadable);
                }
                match parse_filter(text.as_str()) {
                    Ok(filter) => filter,
                    Err(e) => {
                        return Err(FilterError::AmbientMalformed(e));
                    },
                }
            },
            Ambient::Unreadable => {
                return Err(FilterError::AmbientUnreadable);
            },
            Ambient::Absent => {
                // Explicit directives stand alone: no default beside them.
                let parsed = if self.log_directives.len() == 0 {
                    proof {
                        lemma_default_text_is_plain(self.verbose);
                    }
                    parse_filter(default_directive(self.verbose).as_str())
                } else {
                    proof {
                        reveal_strlit("");
                        assert(""@ =~= fallback_text(self.verbose, count));
                    }
                    parse_filter("")
                };
                match parsed {
                    Ok(filter) => filter,
                    Err(e) => {
                        return Err(FilterError::DefaultRefused(e));
                    },
                }
            },
        };
        assert(base_filter(*ambient, self.verbose, count) == Ok::<EnvFilter, FilterError>(base));
        let ghost start = base;
        let mut filter = base;
        let mut at: usize = 0;
        while at < self.log_directives.len()
            invariant
                at <= self.log_directives@.len(),
                filter == layered(start, self.log_directives@.take(at as int)),
            decreases self.log_directives@.len() - at,
        {
            proof {
                let next = self.log_directives@.take(at + 1);
                assert(next.drop_last() =~= self.log_directives@.take(at as int));
                assert(next.last() == self.log_directives@[at as int]);
            }
            filter = add_directive(filter, &self.log_directives[at]);
            at += 1;
        }
        assert(self.log_directives@.take(at as int) =~= self.log_directives@);
        Ok(filter)
    }

    /// The plan of the full rendering.
    pub fn fmt_layer_full(&self, interactive: bool) -> (res: FormatPlan)
        ensures
            res == format_plan(Logger::Full, interactive),
    {
        FormatPlan { style: Logger::Full, sink: Sink::Stderr, ansi: interactive, fields: None }
    }

    /// The plan of the pretty rendering.
    pub fn fmt_layer_pretty(&self, interactive: bool) -> (res: FormatPlan)
        ensures
            res == format_plan(Logger::Pretty, interactive),
    {
        FormatPlan { style: Logger::Pretty, sink: Sink::Stderr, ansi: interactive, fields: None }
    }

    /// The plan of the JSON rendering.
    pub fn fmt_layer_json(&self, interactive: bool) -> (res: FormatPlan)
        ensures
            res == format_plan(Logger::Json, interactive),
    {
        FormatPlan { style: Logger::Json, sink: Sink::Stderr, ansi: interactive, fields: None }
    }

    /// The plan of the compact rendering: no time, no target, no thread, no
    /// source file and no line.
    pub fn fmt_layer_compact(&self, interactive: bool) -> (res: FormatPlan)
        ensures
            res == format_plan(Logger::Compact, interactive),
            res.fields == Some(bare_context()),
    {
        FormatPlan {
            style: Logger::Compact,
            sink: Sink::Stderr,
            ansi: interactive,
            fields: Some(ContextFields::bare()),
        }
    }
}

} // verus!
