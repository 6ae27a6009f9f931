//! Events the working set hands to the application, in the order their
//! source messages were seen on the wire.

use vstd::prelude::*;

use crate::objects::ObjectId;

verus! {

/// One user-interface event, carrying the object ids and payload of the
/// message that caused it.
#[derive(Debug)]
pub enum EventType {
    OnActivate,
    OnDeactivate,
    SoftKeyPressed(ObjectId, ObjectId, u8),
    SoftKeyReleased(ObjectId, ObjectId, u8),
    SoftKeyHeld(ObjectId, ObjectId, u8),
    ButtonPressed(ObjectId, ObjectId, u8),
    ButtonReleased(ObjectId, ObjectId, u8),
    ButtonHeld(ObjectId, ObjectId, u8),
    Pointing(u16, u16),
    InputObjectSelected(ObjectId),
    InputObjectDeselected(ObjectId),
    NumericValueChanged(ObjectId, u32),
    ActiveMaskChanged(ObjectId, ObjectId),
    StringValueChanged(ObjectId, Vec<u8>),
}

} // verus!
