//! The static image widget.

use vstd::prelude::*;

use crate::widget::{BaseWidget, Downcast};

verus! {

/// A fixed raster image.
pub struct Image {
    base: BaseWidget,
}

impl Image {
    /// The wrapped base handle.
    pub fn base(&self) -> (r: &BaseWidget)
        ensures
            *r == self.base_of(),
    {
        &self.base
    }
}

impl Downcast for Image {
    open spec fn classname_spec() -> Seq<char> {
        "image"@
    }

    closed spec fn base_of(&self) -> BaseWidget {
        self.base
    }

    fn classname() -> (r: &'static str) {
        "image"
    }

    fn from_base(base: BaseWidget) -> (r: Self) {
        Image { base }
    }

    fn into_base(self) -> (r: BaseWidget) {
        self.base
    }
}

} // verus!
