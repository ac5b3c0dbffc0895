//! Text forms of an id: for display the text of the raw id and nothing more,
//! for debugging the wrapper's name around the raw id's debug text.

use crate::id::TypedId;
use std::fmt::{Debug, DebugTuple, Display, Error, Formatter};
use vstd::prelude::*;
use vstd::string::*;

verus! {

/// `std::fmt::Formatter`, as an opaque value that is only passed on.
#[verifier::external_type_specification]
#[verifier::external_body]
pub struct ExFormatter<'a>(Formatter<'a>);

/// `std::fmt::Error`, as an opaque value that is only passed on.
#[verifier::external_type_specification]
#[verifier::external_body]
pub struct ExFmtError(Error);

/// `std::fmt::DebugTuple`, as an opaque value that is only passed on.
#[verifier::external_type_specification]
#[verifier::external_body]
pub struct ExDebugTuple<'a, 'b: 'a>(DebugTuple<'a, 'b>);

/// Calls `Formatter::debug_tuple`, which starts a tuple struct of the given
/// name. Nothing is claimed of what is written.
#[verifier::external_body]
fn tuple_begin<'a, 'b>(f: &'a mut Formatter<'b>, name: &str) -> (t: DebugTuple<'a, 'b>) {
    f.debug_tuple(name)
}

/// Calls `DebugTuple::field`, which adds a field to the tuple struct.
/// Nothing is claimed of what is written.
#[verifier::external_body]
fn tuple_field<I: Debug>(t: &mut DebugTuple<'_, '_>, value: &I) {
    t.field(value);
}

/// Calls `DebugTuple::finish`, which closes the tuple struct. Nothing is
/// claimed of what is written, nor of whether writing succeeds.
#[verifier::external_body]
fn tuple_finish(t: &mut DebugTuple<'_, '_>) -> (r: Result<(), Error>) {
    t.finish()
}

/// Formats `raw` with `{:?}`. Nothing is claimed of the text: it is whatever
/// the `Debug` impl of `I` writes.
#[verifier::external_body]
fn debug_text<I: Debug>(raw: &I) -> (text: String) {
    format!("{:?}", raw)
}

/// Whether `text` is a debug text of `raw`: one that formatting `raw` with
/// `{:?}` may give.
pub closed spec fn is_debug_text<I: Debug>(raw: I, text: String) -> bool {
    call_ensures(debug_text::<I>, (&raw,), text)
}

/// The debug form of an id whose raw id has the debug text `inner`: the
/// wrapper's name, then `inner` in parentheses.
pub open spec fn debug_form(inner: Seq<char>) -> Seq<char> {
    "TypedId("@ + inner + ")"@
}

/// Puts the wrapper's name and parentheses around the debug text of a raw
/// id.
pub fn debug_form_of(inner: &str) -> (s: String)
    ensures
        s@ == debug_form(inner@),
{
    let mut s = String::from_str("TypedId(");
    s.append(inner);
    s.append(")");
    s
}

impl<I, T> TypedId<I, T> {
    /// The display text of an id: exactly that of its raw id, with no
    /// wrapper markup and no tag name.
    pub fn to_string(&self) -> (s: String) where I: Display
        ensures
            to_string_from_display_ensures::<I>(&self@, s),
    {
        self.0.to_string()
    }

    /// The debug text of an id: the wrapper's name, then a debug text of the
    /// raw id in parentheses. It is the text that `{:?}` writes.
    pub fn to_debug_string(&self) -> (s: String) where I: Debug
        ensures
            exists|inner: String| #[trigger]
                is_debug_text(self@, inner) && s@ == debug_form(inner@),
    {
        let inner = debug_text(&self.0);
        assert(is_debug_text(self@, inner));
        debug_form_of(inner.as_str())
    }
}

impl<I: Debug, T> Debug for TypedId<I, T> {
    /// Writes the id as a tuple struct named `TypedId` whose one field is the
    /// raw id, so that the formatter's flags reach the raw id. What the
    /// formatter has received is not visible to the verifier; the text
    /// itself is stated by [`TypedId::to_debug_string`].
    fn fmt(&self, f: &mut Formatter<'_>) -> (r: Result<(), Error>) {
        let mut tuple = tuple_begin(f, "TypedId");
        tuple_field(&mut tuple, &self.0);
        tuple_finish(&mut tuple)
    }
}

} // verus!
