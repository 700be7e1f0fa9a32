//! The filter grammar of `tracing_subscriber`, as far as this library relies
//! on it.
//!
//! Nothing in this file is proved. Each contract is a statement about
//! `tracing_subscriber`, and the rest of the library is verified against it.
//! A filter is taken here as the directives it holds: the caches it fills
//! while a subscriber runs under it start out empty and are not spoken of.

use crate::text::parse_ready;
use std::str::FromStr;
use tracing_subscriber::filter::{Directive, EnvFilter, ParseError};
use vstd::prelude::*;

verus! {

/// `tracing_subscriber::EnvFilter`: the directives that a subscriber filters
/// spans and events by.
#[verifier::external_type_specification]
#[verifier::external_body]
pub struct ExEnvFilter(EnvFilter);

/// `tracing_subscriber::filter::Directive`: one parsed directive, such as
/// `<target>=<level>` or a bare level.
#[verifier::external_type_specification]
#[verifier::external_body]
pub struct ExDirective(Directive);

/// `tracing_subscriber::filter::ParseError`: why the grammar refused a text.
#[verifier::external_type_specification]
#[verifier::external_body]
pub struct ExParseError(ParseError);

/// What `Directive::from_str` returns on a text: the directive it spells, or
/// the grammar's refusal.
pub uninterp spec fn parsed_directive(text: Seq<char>) -> Result<Directive, ParseError>;

/// What `EnvFilter::try_new` returns on a text: the filter that holds the
/// directives of the comma-separated text, or the refusal of the first
/// segment that is no directive.
pub uninterp spec fn parsed_filter(text: Seq<char>) -> Result<EnvFilter, ParseError>;

/// What `EnvFilter::new` returns on a text: the filter that holds those
/// segments of the text that are directives, or the directive `error` where
/// none is.
pub uninterp spec fn lenient_filter(text: Seq<char>) -> EnvFilter;

/// What `EnvFilter::add_directive` returns: the filter with the directive
/// layered on top of those it held.
pub uninterp spec fn with_directive(filter: EnvFilter, directive: Directive) -> EnvFilter;

/// Whether `c` is a letter or a digit of ASCII, or an underscore.
pub open spec fn is_word_char(c: char) -> bool {
    'a' <= c <= 'z' || 'A' <= c <= 'Z' || '0' <= c <= '9' || c == '_'
}

/// Whether `text` is the name of a level, in small letters.
pub open spec fn is_level_name(text: Seq<char>) -> bool {
    ||| text == "trace"@
    ||| text == "debug"@
    ||| text == "info"@
    ||| text == "warn"@
    ||| text == "error"@
    ||| text == "off"@
}

/// Whether `text` is a target of word characters up to `cut`, an equals sign
/// there, and the name of a level behind it.
pub open spec fn is_target_at_level_by(text: Seq<char>, cut: int) -> bool {
    &&& 0 < cut < text.len()
    &&& text[cut] == '='
    &&& forall|i: int| 0 <= i < cut ==> is_word_char(#[trigger] text[i])
    &&& is_level_name(text.subrange(cut + 1, text.len() as int))
}

/// Whether `text` is of the plainest form that the grammar documents,
/// `target=level`: one directive, a target of word characters at a named
/// level.
pub open spec fn is_target_at_level(text: Seq<char>) -> bool {
    exists|cut: int| is_target_at_level_by(text, cut)
}

/// Calls `Directive::from_str`, whose result depends on the text alone.
#[verifier::external_body]
pub(crate) fn parse_directive(text: &str) -> (res: Result<Directive, ParseError>)
    requires
        parse_ready(text@),
    ensures
        res == parsed_directive(text@),
{
    Directive::from_str(text)
}

/// Calls `EnvFilter::try_new`, whose result depends on the text alone. Two
/// sorts of text are never refused. The empty text: the builder returns a
/// filter without directives before it looks for any. And a text of the form
/// `target=level`: the parser takes word characters up to the equals sign as
/// the target, and what follows as the level, which it knows by its name.
#[verifier::external_body]
pub(crate) fn parse_filter(text: &str) -> (res: Result<EnvFilter, ParseError>)
    requires
        parse_ready(text@),
    ensures
        res == parsed_filter(text@),
        text@.len() == 0 ==> res is Ok,
        is_target_at_level(text@) ==> res is Ok,
{
    EnvFilter::try_new(text)
}

/// Calls `EnvFilter::new`, whose result depends on the text alone. It reports
/// each segment that it ignores on standard error.
#[verifier::external_body]
pub(crate) fn parse_filter_lenient(text: &str) -> (res: EnvFilter)
    requires
        parse_ready(text@),
    ensures
        res == lenient_filter(text@),
{
    EnvFilter::new(text)
}

/// Calls `EnvFilter::add_directive` with a copy of the directive.
#[verifier::external_body]
pub(crate) fn add_directive(filter: EnvFilter, directive: &Directive) -> (res: EnvFilter)
    ensures
        res == with_directive(filter, *directive),
{
    filter.add_directive(directive.clone())
}

} // verus!
