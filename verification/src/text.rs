//! Rendering of values whose type is known only by its `Debug` or `Display`
//! impl, and writing of text to a formatter.

use std::fmt::Debug;
use std::fmt::Display;
use std::fmt::Formatter;
use vstd::prelude::*;

verus! {

/// `std::fmt::Formatter`, what a `Debug` or `Display` impl writes to.
#[verifier::external_type_specification]
#[verifier::external_body]
pub struct ExFormatter<'a>(Formatter<'a>);

/// `std::fmt::Error`, the error of writing to a formatter.
#[verifier::external_type_specification]
#[verifier::external_body]
pub struct ExFmtError(std::fmt::Error);

/// `Formatter::write_str`: writes `text` to the formatter. Nothing is stated
/// of the formatter after the call, nor of when the writing fails.
#[verifier::external_body]
pub(crate) fn write_text(f: &mut Formatter<'_>, text: &str) -> Result<(), std::fmt::Error> {
    f.write_str(text)
}

/// The `{:?}` rendering of `value`, as `format!` gives it. The text is
/// whatever the value's `Debug` impl writes, so nothing is stated of it.
#[verifier::external_body]
fn debug_text<T: Debug>(value: &T) -> (text: String) {
    format!("{:?}", value)
}

/// `prefix` followed by the `{:?}` rendering of `value`, as `format!` gives
/// it. Only the start of the text is stated: it is the prefix.
#[verifier::external_body]
fn debug_line<T: Debug>(prefix: &String, value: &T) -> (line: String)
    ensures
        prefix@.is_prefix_of(line@),
{
    format!("{}{:?}", prefix, value)
}

/// `prefix` followed by the `{}` rendering of `value`, as `format!` gives
/// it. Only the start of the text is stated: it is the prefix.
#[verifier::external_body]
fn display_line<T: Display>(prefix: &String, value: &T) -> (line: String)
    ensures
        prefix@.is_prefix_of(line@),
{
    format!("{}{}", prefix, value)
}

/// Whether `text` is what rendering `value` with `{:?}` has given.
pub closed spec fn renders<T: Debug>(value: &T, text: String) -> bool {
    call_ensures(debug_text::<T>, (value,), text)
}

/// Whether `line` is what rendering `prefix` and then `value` with `{:?}`
/// has given.
pub closed spec fn renders_debug_line<T: Debug>(prefix: &String, value: &T, line: String) -> bool {
    call_ensures(debug_line::<T>, (prefix, value), line)
}

/// Whether `line` is what rendering `prefix` and then `value` with `{}` has
/// given.
pub closed spec fn renders_display_line<T: Display>(
    prefix: &String,
    value: &T,
    line: String,
) -> bool {
    call_ensures(display_line::<T>, (prefix, value), line)
}

/// A line rendered from a prefix and a value starts with the prefix.
pub proof fn lemma_line_starts_with_prefix<T: Debug, U: Display>(
    prefix: &String,
    debugged: &T,
    displayed: &U,
    line: String,
)
    ensures
        renders_debug_line(prefix, debugged, line) ==> prefix@.is_prefix_of(line@),
        renders_display_line(prefix, displayed, line) ==> prefix@.is_prefix_of(line@),
{
}

/// The `{:?}` rendering of `value`.
pub(crate) fn render<T: Debug>(value: &T) -> (text: String)
    ensures
        renders(value, text),
{
    debug_text(value)
}

/// `prefix` followed by the `{:?}` rendering of `value`.
pub(crate) fn render_debug_line<T: Debug>(prefix: &String, value: &T) -> (line: String)
    ensures
        renders_debug_line(prefix, value, line),
        prefix@.is_prefix_of(line@),
{
    debug_line(prefix, value)
}

/// `prefix` followed by the `{}` rendering of `value`.
pub(crate) fn render_display_line<T: Display>(prefix: &String, value: &T) -> (line: String)
    ensures
        renders_display_line(prefix, value, line),
        prefix@.is_prefix_of(line@),
{
    display_line(prefix, value)
}

} // verus!
