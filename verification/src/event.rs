//! The ghost record of one call received by an emitter.

use vstd::prelude::*;
use crate::field_type::FieldTypeView;
use crate::modifier::Modifier;

verus! {

/// One call of the traversal protocol, as an emitter's ghost log records
/// it: the beginning of a shape, one declared field, or the end of the
/// shape.
pub enum Event {
    Start(Modifier, Seq<char>),
    Field(Modifier, Seq<char>, FieldTypeView),
    End,
}

} // verus!
