//! Typed attribute updates.
//!
//! The toolkit exposes one stringly-typed attribute table per widget. A
//! setter call needs three things: the target handle, the attribute name,
//! and the new value, where the value is either a text payload, another
//! widget's handle, or null — and null does not mean "empty": by the
//! toolkit's convention a null value *removes* the attribute. That
//! convention is easy to invert by accident, so this module pins it down
//! as a datatype: an [`AttrCommand`] is a fully validated update that the
//! unverified shell only has to translate into the matching foreign call.

use vstd::prelude::*;

use crate::cstr::nul_free;
use crate::valid_id;

verus! {

/// The value half of an attribute update.
#[derive(Debug, PartialEq, Eq)]
pub enum AttrValue {
    /// Set the attribute to this text payload. The payload is NUL-free,
    /// so it can be handed to the foreign setter as a C string.
    Text(Vec<u8>),
    /// Set the attribute to the widget with this handle id, through the
    /// toolkit's handle-valued attribute setter.
    Handle(u64),
    /// Remove the attribute: the foreign setter must receive a null
    /// value pointer. Null clears; an empty string does not.
    Clear,
}

/// Why a requested attribute update was rejected.
#[derive(Debug, Clone, Copy, PartialEq, Eq, Structural)]
pub enum AttrError {
    /// The text payload holds a NUL byte and so cannot become a C string.
    InteriorNul,
}

/// A validated attribute update, ready for the foreign setter.
#[derive(Debug, PartialEq, Eq)]
pub struct AttrCommand {
    /// Handle id of the widget whose attribute changes.
    pub target: u64,
    /// The toolkit's name for the attribute.
    pub name: &'static str,
    /// The new value, or the order to clear the attribute.
    pub value: AttrValue,
}

impl AttrCommand {
    /// Every command a widget produces satisfies this: the target is a
    /// live (non-null) handle id, and a text payload is NUL-free.
    pub open spec fn wf(&self) -> bool {
        &&& valid_id(self.target)
        &&& match self.value {
            AttrValue::Text(v) => nul_free(v@),
            AttrValue::Handle(h) => valid_id(h),
            AttrValue::Clear => true,
        }
    }
}

/// Builds the order to set a text attribute. The payload is accepted
/// exactly when it is NUL-free, as the C string conversion demands.
pub(crate) fn text_update(target: u64, name: &'static str, val: Vec<u8>) -> (r: Result<
    AttrCommand,
    AttrError,
>)
    requires
        valid_id(target),
    ensures
        nul_free(val@) ==> (r matches Ok(cmd) && cmd.target == target && cmd.name@ == name@ && (
        cmd.value matches AttrValue::Text(b) && b@ == val@) && cmd.wf()),
        !nul_free(val@) ==> r == Result::<AttrCommand, AttrError>::Err(AttrError::InteriorNul),
{
    if crate::cstr::check_nul_free(&val) {
        Ok(AttrCommand { target, name, value: AttrValue::Text(val) })
    } else {
        Err(AttrError::InteriorNul)
    }
}

/// Builds the order for an optional text attribute: `None` clears the
/// attribute — the foreign setter must then receive null, never an empty
/// string — and `Some` sets it like [`text_update`].
pub(crate) fn opt_text_update(target: u64, name: &'static str, val: Option<Vec<u8>>) -> (r: Result<
    AttrCommand,
    AttrError,
>)
    requires
        valid_id(target),
    ensures
        val is None ==> (r matches Ok(cmd) && cmd.target == target && cmd.name@ == name@
            && cmd.value is Clear && cmd.wf()),
        val matches Some(v) ==> if nul_free(v@) {
            r matches Ok(cmd) && cmd.target == target && cmd.name@ == name@ && (
            cmd.value matches AttrValue::Text(b) && b@ == v@) && cmd.wf()
        } else {
            r == Result::<AttrCommand, AttrError>::Err(AttrError::InteriorNul)
        },
{
    match val {
        None => Ok(AttrCommand { target, name, value: AttrValue::Clear }),
        Some(v) => text_update(target, name, v),
    }
}

} // verus!
