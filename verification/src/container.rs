//! Layout containers that stack their children in one direction.

use vstd::prelude::*;

use crate::widget::{BaseWidget, Downcast};

verus! {

/// A container laying its children out side by side.
pub struct Horizontal {
    base: BaseWidget,
}

impl Horizontal {
    /// The wrapped base handle.
    pub fn base(&self) -> (r: &BaseWidget)
        ensures
            *r == self.base_of(),
    {
        &self.base
    }
}

impl Downcast for Horizontal {
    open spec fn classname_spec() -> Seq<char> {
        "hbox"@
    }

    closed spec fn base_of(&self) -> BaseWidget {
        self.base
    }

    fn classname() -> (r: &'static str) {
        "hbox"
    }

    fn from_base(base: BaseWidget) -> (r: Self) {
        Horizontal { base }
    }

    fn into_base(self) -> (r: BaseWidget) {
        self.base
    }
}

/// A container laying its children out top to bottom.
pub struct Vertical {
    base: BaseWidget,
}

impl Vertical {
    /// The wrapped base handle.
    pub fn base(&self) -> (r: &BaseWidget)
        ensures
            *r == self.base_of(),
    {
        &self.base
    }
}

impl Downcast for Vertical {
    open spec fn classname_spec() -> Seq<char> {
        "vbox"@
    }

    closed spec fn base_of(&self) -> BaseWidget {
        self.base
    }

    fn classname() -> (r: &'static str) {
        "vbox"
    }

    fn from_base(base: BaseWidget) -> (r: Self) {
        Vertical { base }
    }

    fn into_base(self) -> (r: BaseWidget) {
        self.base
    }
}

} // verus!
