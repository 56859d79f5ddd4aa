//! Handing finished text to a formatter.
use vstd::prelude::*;

verus! {

/// `core::fmt::Formatter`: where `Debug` and `Display` put their text. Nothing is known of
/// what is inside one.
#[verifier::external_type_specification]
#[verifier::external_body]
pub struct ExFormatter<'a>(core::fmt::Formatter<'a>);

/// `core::fmt::Error`: what a formatter answers when its sink did not take the text.
#[verifier::external_type_specification]
#[verifier::external_body]
pub struct ExFmtError(core::fmt::Error);

/// Calls `core::fmt::Formatter::write_str`, which appends `text` to the formatter's output
/// and reports whether the sink took it. Nothing is claimed of the outcome: the sink decides.
#[verifier::external_body]
pub(crate) fn write_text(f: &mut core::fmt::Formatter<'_>, text: &str) -> (r: Result<
    (),
    core::fmt::Error,
>) {
    f.write_str(text)
}

} // verus!
