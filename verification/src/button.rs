//! The push-button widget.

use vstd::prelude::*;

use crate::attr::{AttrCommand, AttrError, AttrValue};
use crate::cstr::nul_free;
use crate::valid_id;
use crate::widget::{BaseWidget, Downcast};

verus! {

/// A clickable push button.
pub struct Button {
    base: BaseWidget,
}

impl Button {
    /// The wrapped base handle.
    pub fn base(&self) -> (r: &BaseWidget)
        ensures
            *r == self.base_of(),
    {
        &self.base
    }

    /// Builds the order to set the button's label text (the toolkit's
    /// `TITLE` attribute).
    pub fn set_label(&self, label: Vec<u8>) -> (r: Result<AttrCommand, AttrError>)
        requires
            valid_id(self.base_of().id()),
        ensures
            nul_free(label@) ==> (r matches Ok(cmd) && cmd.target == self.base_of().id()
                && cmd.name@ == "TITLE"@ && (cmd.value matches AttrValue::Text(b) && b@ == label@)
                && cmd.wf()),
            !nul_free(label@) ==> r == Result::<AttrCommand, AttrError>::Err(
                AttrError::InteriorNul,
            ),
    {
        self.base.set_str_attribute("TITLE", label)
    }
}

impl Downcast for Button {
    open spec fn classname_spec() -> Seq<char> {
        "button"@
    }

    closed spec fn base_of(&self) -> BaseWidget {
        self.base
    }

    fn classname() -> (r: &'static str) {
        "button"
    }

    fn from_base(base: BaseWidget) -> (r: Self) {
        Button { base }
    }

    fn into_base(self) -> (r: BaseWidget) {
        self.base
    }
}

} // verus!
