//! The content of a JSON value as a mathematical object.

use crate::decimal::decimal_text;
use vstd::prelude::*;

verus! {

/// The mathematical content of a JSON value.
///
/// An object is a mapping from key text to content, so the order in which its
/// entries were supplied is not part of it, and no key occurs twice. An
/// integer is any integer; the values built here hold those of 64 bits.
pub enum Json {
    Null,
    Bool(bool),
    Integer(int),
    /// A finite floating-point number, given by its IEEE-754 bit pattern.
    Float(u64),
    String(Seq<char>),
    Array(Seq<Json>),
    Object(Map<Seq<char>, Json>),
}

/// The text of the contents that are written without any rule of the
/// encoder's own: the words `null`, `true` and `false`, an integer in decimal
/// notation, `[]` for an array without elements and `{}` for an object
/// without entries. `None` for any other content.
pub open spec fn plain_text(j: Json) -> Option<Seq<char>> {
    match j {
        Json::Null => Some("null"@),
        Json::Bool(true) => Some("true"@),
        Json::Bool(false) => Some("false"@),
        Json::Integer(n) => Some(decimal_text(n)),
        Json::Array(items) => if items.len() == 0 {
            Some("[]"@)
        } else {
            None
        },
        Json::Object(entries) => if entries.dom() =~= Set::<Seq<char>>::empty() {
            Some("{}"@)
        } else {
            None
        },
        _ => None,
    }
}

} // verus!
