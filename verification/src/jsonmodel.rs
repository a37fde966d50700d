//! The mathematical model of a JSON value, as the record parser reads it.

use vstd::prelude::*;

verus! {

/// What a JSON value holds. Numbers are modeled only as far as the
/// records use them: an unsigned integer that fits `u64`, or any other
/// number.
pub enum JsonView {
    Null,
    Bool(bool),
    UInt(u64),
    OtherNumber,
    Text(Seq<char>),
    Arr(Seq<JsonView>),
    Obj(Map<Seq<char>, JsonView>),
}

/// Object field lookup on the model: `None` when the value is no object
/// or the key is absent.
pub open spec fn jget(j: JsonView, key: Seq<char>) -> Option<JsonView> {
    match j {
        JsonView::Obj(m) => if m.dom().contains(key) {
            Some(m[key])
        } else {
            None
        },
        _ => None,
    }
}

} // verus!
