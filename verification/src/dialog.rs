//! The top-level dialog widget.

use vstd::prelude::*;

use crate::attr::{AttrCommand, AttrError, AttrValue};
use crate::cstr::nul_free;
use crate::valid_id;
use crate::widget::{BaseWidget, Downcast};

verus! {

/// A top-level window holding one child widget.
pub struct Dialog {
    base: BaseWidget,
}

impl Dialog {
    /// The wrapped base handle.
    pub fn base(&self) -> (r: &BaseWidget)
        ensures
            *r == self.base_of(),
    {
        &self.base
    }

    /// Builds the order to set the dialog's title bar text (the
    /// toolkit's `TITLE` attribute).
    pub fn set_title(&self, title: Vec<u8>) -> (r: Result<AttrCommand, AttrError>)
        requires
            valid_id(self.base_of().id()),
        ensures
            nul_free(title@) ==> (r matches Ok(cmd) && cmd.target == self.base_of().id()
                && cmd.name@ == "TITLE"@ && (cmd.value matches AttrValue::Text(b) && b@ == title@)
                && cmd.wf()),
            !nul_free(title@) ==> r == Result::<AttrCommand, AttrError>::Err(
                AttrError::InteriorNul,
            ),
    {
        self.base.set_str_attribute("TITLE", title)
    }
}

impl Downcast for Dialog {
    open spec fn classname_spec() -> Seq<char> {
        "dialog"@
    }

    closed spec fn base_of(&self) -> BaseWidget {
        self.base
    }

    fn classname() -> (r: &'static str) {
        "dialog"
    }

    fn from_base(base: BaseWidget) -> (r: Self) {
        Dialog { base }
    }

    fn into_base(self) -> (r: BaseWidget) {
        self.base
    }
}

} // verus!
