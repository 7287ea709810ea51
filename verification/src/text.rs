//! The single-line text entry widget.

use vstd::prelude::*;

use crate::attr::{AttrCommand, AttrError, AttrValue};
use crate::cstr::nul_free;
use crate::valid_id;
use crate::widget::{BaseWidget, Downcast};

verus! {

/// An editable text field.
pub struct TextBox {
    base: BaseWidget,
}

impl TextBox {
    /// The wrapped base handle.
    pub fn base(&self) -> (r: &BaseWidget)
        ensures
            *r == self.base_of(),
    {
        &self.base
    }

    /// Builds the order to set or clear the field's contents (the
    /// toolkit's `VALUE` attribute): `None` clears the attribute, which
    /// the foreign setter is told by a null value, never by an empty
    /// string.
    pub fn set_text(&self, text: Option<Vec<u8>>) -> (r: Result<AttrCommand, AttrError>)
        requires
            valid_id(self.base_of().id()),
        ensures
            text is None ==> (r matches Ok(cmd) && cmd.target == self.base_of().id() && cmd.name@
                == "VALUE"@ && cmd.value is Clear && cmd.wf()),
            text matches Some(v) ==> if nul_free(v@) {
                r matches Ok(cmd) && cmd.target == self.base_of().id() && cmd.name@ == "VALUE"@
                    && (cmd.value matches AttrValue::Text(b) && b@ == v@) && cmd.wf()
            } else {
                r == Result::<AttrCommand, AttrError>::Err(AttrError::InteriorNul)
            },
    {
        self.base.set_opt_str_attribute("VALUE", text)
    }
}

impl Downcast for TextBox {
    open spec fn classname_spec() -> Seq<char> {
        "text"@
    }

    closed spec fn base_of(&self) -> BaseWidget {
        self.base
    }

    fn classname() -> (r: &'static str) {
        "text"
    }

    fn from_base(base: BaseWidget) -> (r: Self) {
        TextBox { base }
    }

    fn into_base(self) -> (r: BaseWidget) {
        self.base
    }
}

} // verus!
