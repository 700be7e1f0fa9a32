//! Which filter the process logs under.
//!
//! Three sources compete. A filter text found in the environment wins; where
//! there is none, the verbosity count gives a default, unless directives were
//! given explicitly, which then stand alone. The explicit directives are
//! layered on top of whatever base was chosen.

use crate::grammar::{
    is_target_at_level, is_target_at_level_by, parse_directive, parsed_directive, parsed_filter,
    with_directive,
};
use crate::text::{is_parse_ready, parse_ready};
use tracing_subscriber::filter::{Directive, EnvFilter, ParseError};
use vstd::prelude::*;
use vstd::string::*;
use vstd::utf8::is_ascii_chars;

verus! {

/// What the environment holds under the name of the filter variable.
#[derive(Debug)]
pub enum Ambient {
    /// The variable is not set.
    Absent,
    /// The variable is set to something that is no text.
    Unreadable,
    /// The variable is set to this text.
    Text(String),
}

impl Ambient {
    /// Whether the environment holds a filter that cannot be used: no text,
    /// a text that the grammar cannot be handed, or one that it refuses.
    pub open spec fn is_faulty(self) -> bool {
        match self {
            Ambient::Absent => false,
            Ambient::Unreadable => true,
            Ambient::Text(text) => !parse_ready(text@) || parsed_filter(text@) is Err,
        }
    }
}

/// Why no filter could be resolved.
#[derive(Debug)]
pub enum FilterError {
    /// The environment's filter is no text, or is a text that the grammar
    /// cannot be handed.
    AmbientUnreadable,
    /// The grammar refused the environment's filter.
    AmbientMalformed(ParseError),
    /// The grammar refused the default that was made up from the verbosity.
    DefaultRefused(ParseError),
}

impl FilterError {
    /// Whether the environment's filter is at fault.
    pub open spec fn is_ambient(self) -> bool {
        self is AmbientUnreadable || self is AmbientMalformed
    }

    /// Decides `is_ambient`.
    pub fn blames_ambient(&self) -> (res: bool)
        ensures
            res == self.is_ambient(),
    {
        match self {
            FilterError::AmbientUnreadable => true,
            FilterError::AmbientMalformed(_) => true,
            FilterError::DefaultRefused(_) => false,
        }
    }

    /// What the process was doing when it failed, where that is more than the
    /// grammar's refusal says by itself.
    pub fn context(&self) -> (res: Option<&'static str>)
        ensures
            self.is_ambient() ==> res is Some && res->Some_0@ == "parsing directives"@,
            !self.is_ambient() ==> res is None,
    {
        if self.blames_ambient() {
            Some("parsing directives")
        } else {
            None
        }
    }

    /// The grammar's refusal, where there is one.
    pub fn cause(&self) -> (res: Option<&ParseError>)
        ensures
            res == match *self {
                FilterError::AmbientUnreadable => None,
                FilterError::AmbientMalformed(e) => Some(&e),
                FilterError::DefaultRefused(e) => Some(&e),
            },
    {
        match self {
            FilterError::AmbientUnreadable => None,
            FilterError::AmbientMalformed(e) => Some(e),
            FilterError::DefaultRefused(e) => Some(e),
        }
    }
}

/// Why a list of texts is no list of directives.
#[derive(Debug)]
pub struct DirectiveError {
    /// The place in the list of the first text that is no directive.
    pub index: usize,
    /// The grammar's refusal of that text; `None` where the text is one that
    /// the grammar cannot be handed.
    pub cause: Option<ParseError>,
}

/// The directive that a text spells, or why it spells none.
pub open spec fn directive_of(text: Seq<char>) -> Result<Directive, Option<ParseError>> {
    if !parse_ready(text) {
        Err(None)
    } else {
        match parsed_directive(text) {
            Ok(directive) => Ok(directive),
            Err(e) => Err(Some(e)),
        }
    }
}

/// Reads one directive.
pub fn read_directive(text: &str) -> (res: Result<Directive, Option<ParseError>>)
    ensures
        res == directive_of(text@),
{
    if !is_parse_ready(text) {
        return Err(None);
    }
    match parse_directive(text) {
        Ok(directive) => Ok(directive),
        Err(e) => Err(Some(e)),
    }
}

/// Reads a list of directives, each from its text and in the order of the
/// texts. The first text that is no directive ends the reading: nothing is
/// resolved from a list with a fault in it.
pub fn read_directives(texts: &Vec<String>) -> (res: Result<Vec<Directive>, DirectiveError>)
    ensures
        match res {
            Ok(directives) => {
                &&& directives@.len() == texts@.len()
                &&& forall|i: int|
                    #![trigger texts@[i]]
                    0 <= i < texts@.len() ==> directive_of(texts@[i]@) == Ok::<
                        Directive,
                        Option<ParseError>,
                    >(directives@[i])
            },
            Err(e) => {
                &&& e.index < texts@.len()
                &&& forall|i: int|
                    #![trigger texts@[i]]
                    0 <= i < e.index ==> directive_of(texts@[i]@) is Ok
                &&& directive_of(texts@[e.index as int]@) == Err::<Directive, Option<ParseError>>(
                    e.cause,
                )
            },
        },
{
    let mut directives: Vec<Directive> = Vec::new();
    let mut at: usize = 0;
    while at < texts.len()
        invariant
            at <= texts@.len(),
            directives@.len() == at,
            forall|i: int|
                #![trigger texts@[i]]
                0 <= i < at ==> directive_of(texts@[i]@) == Ok::<Directive, Option<ParseError>>(
                    directives@[i],
                ),
        decreases texts@.len() - at,
    {
        match read_directive(texts[at].as_str()) {
            Ok(directive) => {
                directives.push(directive);
            },
            Err(cause) => {
                return Err(DirectiveError { index: at, cause });
            },
        }
        at += 1;
    }
    Ok(directives)
}

/// The level that a verbosity count stands for.
pub open spec fn level_name(verbose: u8) -> Seq<char> {
    if verbose == 0 {
        "info"@
    } else if verbose == 1 {
        "debug"@
    } else {
        "trace"@
    }
}

/// A package name as a log target: each hyphen becomes an underscore.
pub open spec fn underscored(name: Seq<char>) -> Seq<char> {
    name.map_values(
        |c: char|
            if c == '-' {
                '_'
            } else {
                c
            },
    )
}

/// The target under which this service logs.
pub open spec fn service_target() -> Seq<char> {
    underscored("newsletter"@)
}

/// The filter text that a verbosity count stands for: the service's own
/// target at the count's level.
pub open spec fn default_filter_text(verbose: u8) -> Seq<char> {
    service_target() + seq!['='] + level_name(verbose)
}

/// The text that the base filter is parsed from where the environment holds
/// none: the default, or nothing where directives were given explicitly.
pub open spec fn fallback_text(verbose: u8, directives: nat) -> Seq<char> {
    if directives == 0 {
        default_filter_text(verbose)
    } else {
        Seq::empty()
    }
}

/// The filter that the explicit directives are layered on.
pub open spec fn base_filter(ambient: Ambient, verbose: u8, directives: nat) -> Result<
    EnvFilter,
    FilterError,
> {
    match ambient {
        Ambient::Text(text) => if !parse_ready(text@) {
            Err(FilterError::AmbientUnreadable)
        } else {
            match parsed_filter(text@) {
                Ok(filter) => Ok(filter),
                Err(e) => Err(FilterError::AmbientMalformed(e)),
            }
        },
        Ambient::Unreadable => Err(FilterError::AmbientUnreadable),
        Ambient::Absent => match parsed_filter(fallback_text(verbose, directives)) {
            Ok(filter) => Ok(filter),
            Err(e) => Err(FilterError::DefaultRefused(e)),
        },
    }
}

/// `base` with each of `directives` layered on it, the first one first.
pub open spec fn layered(base: EnvFilter, directives: Seq<Directive>) -> EnvFilter
    decreases directives.len(),
{
    if directives.len() == 0 {
        base
    } else {
        with_directive(layered(base, directives.drop_last()), directives.last())
    }
}

/// The filter that the three sources resolve to.
pub open spec fn resolved(ambient: Ambient, verbose: u8, directives: Seq<Directive>) -> Result<
    EnvFilter,
    FilterError,
> {
    match base_filter(ambient, verbose, directives.len()) {
        Ok(base) => Ok(layered(base, directives)),
        Err(e) => Err(e),
    }
}

/// Computes `level_name`.
pub fn level_of(verbose: u8) -> (res: &'static str)
    ensures
        res@ == level_name(verbose),
{
    match verbose {
        0 => "info",
        1 => "debug",
        _ => "trace",
    }
}

/// Computes `underscored`.
pub fn target_of(package: &str) -> (res: String)
    ensures
        res@ == underscored(package@),
{
    let len = package.unicode_len();
    let mut target = String::new();
    let mut at: usize = 0;
    while at < len
        invariant
            len == package@.len(),
            at <= len,
            target@ == underscored(package@.take(at as int)),
        decreases len - at,
    {
        proof {
            reveal_strlit("_");
            let one = package@.subrange(at as int, at + 1);
            assert(package@.take(at + 1) =~= package@.take(at as int) + one);
            assert(underscored(package@.take(at + 1)) =~= underscored(package@.take(at as int))
                + underscored(one));
            assert(package@[at as int] == '-' ==> underscored(one) =~= "_"@);
            assert(package@[at as int] != '-' ==> underscored(one) =~= one);
        }
        if package.get_char(at) == '-' {
            target.append("_");
        } else {
            target.append(package.substring_char(at, at + 1));
        }
        at += 1;
    }
    assert(package@.take(len as int) =~= package@);
    target
}

/// The default filter text is plain ASCII and of the form `target=level`,
/// whatever the verbosity.
pub proof fn lemma_default_text_is_plain(verbose: u8)
    ensures
        is_ascii_chars(default_filter_text(verbose)),
        parse_ready(default_filter_text(verbose)),
        is_target_at_level(default_filter_text(verbose)),
{
    reveal_strlit("newsletter");
    reveal_strlit("info");
    reveal_strlit("debug");
    reveal_strlit("trace");
    let text = default_filter_text(verbose);
    assert(service_target() =~= "newsletter"@);
    assert(text.subrange(11, text.len() as int) =~= level_name(verbose));
    assert(is_target_at_level_by(text, 10));
}

/// Builds the default filter text of a verbosity count.
pub fn default_directive(verbose: u8) -> (res: String)
    ensures
        res@ == default_filter_text(verbose),
{
    let mut text = target_of("newsletter");
    proof {
        reveal_strlit("=");
        assert("="@ =~= seq!['=']);
    }
    text.append("=");
    text.append(level_of(verbose));
    text
}

/// Merge, not replace: where the environment holds a filter that the grammar
/// takes, that filter is the base whatever the verbosity, and each explicit
/// directive is layered on what the base and the directives before it came
/// to.
pub proof fn lemma_ambient_and_directives_merge(
    ambient: Ambient,
    verbose: u8,
    directives: Seq<Directive>,
)
    requires
        ambient matches Ambient::Text(text) && parse_ready(text@) && parsed_filter(text@) is Ok,
    ensures
        resolved(ambient, verbose, directives) == Ok::<EnvFilter, FilterError>(
            layered(parsed_filter(ambient->Text_0@)->Ok_0, directives),
        ),
        layered(parsed_filter(ambient->Text_0@)->Ok_0, directives.take(0)) == parsed_filter(
            ambient->Text_0@,
        )->Ok_0,
        forall|i: int|
            #![trigger directives[i]]
            0 <= i < directives.len() ==> layered(
                parsed_filter(ambient->Text_0@)->Ok_0,
                directives.take(i + 1),
            ) == with_directive(
                layered(parsed_filter(ambient->Text_0@)->Ok_0, directives.take(i)),
                directives[i],
            ),
{
    let base = parsed_filter(ambient->Text_0@)->Ok_0;
    assert forall|i: int| 0 <= i < directives.len() implies layered(base, directives.take(i + 1))
        == with_directive(layered(base, directives.take(i)), #[trigger] directives[i]) by {
        assert(directives.take(i + 1).drop_last() =~= directives.take(i));
    }
}

/// A fault in the environment's filter fails the resolution, and in a way
/// that its absence never does: the error blames the environment, and no
/// error of a resolution without an environment filter does.
pub proof fn lemma_malformed_ambient_is_no_absence(
    ambient: Ambient,
    verbose: u8,
    directives: Seq<Directive>,
)
    requires
        ambient matches Ambient::Text(text) && (!parse_ready(text@) || parsed_filter(text@) is Err),
    ensures
        resolved(ambient, verbose, directives) is Err,
        resolved(ambient, verbose, directives)->Err_0.is_ambient(),
        resolved(Ambient::Absent, verbose, directives) is Err ==> !resolved(
            Ambient::Absent,
            verbose,
            directives,
        )->Err_0.is_ambient(),
{
}

/// Explicit directives stand alone: without a filter in the environment, the
/// verbosity plays no part once a directive is given.
pub proof fn lemma_directives_silence_verbosity(
    first: u8,
    second: u8,
    directives: Seq<Directive>,
)
    requires
        directives.len() > 0,
    ensures
        resolved(Ambient::Absent, first, directives) == resolved(
            Ambient::Absent,
            second,
            directives,
        ),
{
}

/// The level of a verbosity count: `info` for none, `debug` for one, `trace`
/// for every count from two on.
pub proof fn lemma_level_by_verbosity(verbose: u8)
    ensures
        verbose == 0 ==> level_name(verbose) == "info"@,
        verbose == 1 ==> level_name(verbose) == "debug"@,
        verbose >= 2 ==> level_name(verbose) == "trace"@,
{
}

} // verus!
