//! Writing values as text.

use std::fmt::{Debug, Error, Formatter};
use vstd::prelude::*;

verus! {

/// The text that has been written to a formatter.
pub uninterp spec fn written(f: Formatter<'_>) -> Seq<char>;

/// Calls `std::fmt::Formatter::write_str`.
///
/// Claimed: where it succeeds, the text has been written behind what was
/// written before. Whether it succeeds is up to what stands behind the
/// formatter.
#[verifier::external_body]
pub(crate) fn write_str(f: &mut Formatter<'_>, text: &str) -> (result: Result<(), Error>)
    ensures
        result is Ok ==> written(*final(f)) == written(*old(f)) + text@,
{
    f.write_str(text)
}

/// Calls `std::fmt::Debug::fmt` on a value. Nothing is claimed of the text: it
/// is up to the value's type.
#[verifier::external_body]
pub(crate) fn write_debug<T: Debug>(f: &mut Formatter<'_>, value: &T) -> (result: Result<(), Error>)
{
    value.fmt(f)
}

} // verus!
