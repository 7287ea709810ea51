//! Widget handle wrappers and the class-tag downcast.
//!
//! Every widget the toolkit creates is reached through an opaque handle.
//! This module models a handle as its plain integer id (`0` standing for
//! the toolkit's null handle) and makes ownership a type-level
//! distinction: a [`BaseWidget`] is the exclusive owner of its handle and
//! is consumed by [`BaseWidget::destroy`], so the foreign release call
//! can be issued at most once per wrapper; a [`BorrowedWidget`] is a
//! non-owning view — it has no destroy operation at all, because the
//! toolkit's container keeps ownership of a handle read back out of an
//! attribute.

use vstd::prelude::*;
use vstd::string::StringSliceAdditionalSpecFns;

use crate::attr::{AttrCommand, AttrError, AttrValue};
use crate::cstr::nul_free;
use crate::valid_id;

verus! {

/// Exclusive owner of one foreign widget handle.
pub struct BaseWidget {
    raw: u64,
}

/// A non-owning view of a foreign widget handle.
///
/// Values of this type come from reading a handle-valued attribute back
/// out of a widget. The toolkit's container still owns that handle, so
/// this type deliberately offers no destroy operation: releasing it here
/// and in the container would free the widget twice.
pub struct BorrowedWidget {
    raw: u64,
}

/// A widget type that a [`BaseWidget`] can be downcast to once its live
/// class tag has been read from the toolkit.
pub trait Downcast: Sized {
    /// The class tag the toolkit reports for widgets of this type.
    spec fn classname_spec() -> Seq<char>;

    /// The base handle wrapped inside this widget value.
    spec fn base_of(&self) -> BaseWidget;

    /// The class tag as text, for comparison against the live tag.
    fn classname() -> (r: &'static str)
        ensures
            r@ == Self::classname_spec(),
    ;

    /// Rebrands a base handle as this widget type. Only
    /// [`BaseWidget::downcast`] should call it, after the class tags
    /// have been found equal.
    fn from_base(base: BaseWidget) -> (r: Self)
        ensures
            r.base_of() == base,
    ;

    /// Gives the base handle back, ownership included.
    fn into_base(self) -> (r: BaseWidget)
        ensures
            r == self.base_of(),
    ;
}

impl BaseWidget {
    /// The wrapped handle id. `0` is the toolkit's null handle.
    pub closed spec fn id(&self) -> u64 {
        self.raw
    }

    /// A wrapper around the toolkit's null handle. It is not well
    /// formed — no operation that talks to the toolkit accepts it — and
    /// exists only as a placeholder in callback plumbing.
    pub fn null() -> (w: BaseWidget)
        ensures
            w.id() == 0,
    {
        BaseWidget { raw: 0 }
    }

    /// Wraps the handle id a foreign constructor returned. The shell
    /// must have checked the constructor's result against null already.
    pub fn from_raw(id: u64) -> (w: BaseWidget)
        requires
            valid_id(id),
        ensures
            w.id() == id,
    {
        BaseWidget { raw: id }
    }

    /// Wraps a handle id that may be the null handle, as a foreign call
    /// with an optional result reports it: the null id becomes `None`.
    pub fn from_raw_opt(id: u64) -> (w: Option<BaseWidget>)
        ensures
            match w {
                Some(b) => valid_id(id) && b.id() == id,
                None => id == 0,
            },
    {
        if id != 0 {
            Some(BaseWidget { raw: id })
        } else {
            None
        }
    }

    /// The raw handle id, for foreign calls that accept the null handle.
    pub fn as_raw(&self) -> (r: u64)
        ensures
            r == self.id(),
    {
        self.raw
    }

    /// The raw handle id, for foreign calls that need a live widget.
    pub fn checked_raw(&self) -> (r: u64)
        requires
            valid_id(self.id()),
        ensures
            r == self.id(),
            r != 0,
    {
        self.raw
    }

    /// Builds the order to set a text attribute. The payload is accepted
    /// exactly when it is NUL-free, as the C string conversion demands.
    pub fn set_str_attribute(&self, name: &'static str, val: Vec<u8>) -> (r: Result<
        AttrCommand,
        AttrError,
    >)
        requires
            valid_id(self.id()),
        ensures
            nul_free(val@) ==> (r matches Ok(cmd) && cmd.target == self.id() && cmd.name@ == name@
                && (cmd.value matches AttrValue::Text(b) && b@ == val@) && cmd.wf()),
            !nul_free(val@) ==> r == Result::<AttrCommand, AttrError>::Err(AttrError::InteriorNul),
    {
        crate::attr::text_update(self.raw, name, val)
    }

    /// Builds the order for an optional text attribute. `None` clears
    /// the attribute — the foreign setter must then receive null, never
    /// an empty string — and `Some` sets it like
    /// [`Self::set_str_attribute`].
    pub fn set_opt_str_attribute(&self, name: &'static str, val: Option<Vec<u8>>) -> (r: Result<
        AttrCommand,
        AttrError,
    >)
        requires
            valid_id(self.id()),
        ensures
            val is None ==> (r matches Ok(cmd) && cmd.target == self.id() && cmd.name@ == name@
                && cmd.value is Clear && cmd.wf()),
            val matches Some(v) ==> if nul_free(v@) {
                r matches Ok(cmd) && cmd.target == self.id() && cmd.name@ == name@ && (
                cmd.value matches AttrValue::Text(b) && b@ == v@) && cmd.wf()
            } else {
                r == Result::<AttrCommand, AttrError>::Err(AttrError::InteriorNul)
            },
    {
        crate::attr::opt_text_update(self.raw, name, val)
    }

    /// Builds the order to set a text attribute from constant text.
    pub fn set_const_str_attribute(&self, name: &'static str, val: &'static str) -> (r: Result<
        AttrCommand,
        AttrError,
    >)
        requires
            valid_id(self.id()),
        ensures
            nul_free(val.spec_bytes()) ==> (r matches Ok(cmd) && cmd.target == self.id()
                && cmd.name@ == name@ && (cmd.value matches AttrValue::Text(b) && b@
                == val.spec_bytes()) && cmd.wf()),
            !nul_free(val.spec_bytes()) ==> r == Result::<AttrCommand, AttrError>::Err(
                AttrError::InteriorNul,
            ),
    {
        let bytes = vstd::slice::slice_to_vec(val.as_bytes());
        self.set_str_attribute(name, bytes)
    }

    /// Builds the order to set a handle-valued attribute to another
    /// widget's handle. The other wrapper is consumed: once a widget is
    /// attached this way the toolkit's container is responsible for it.
    pub fn set_attr_handle(&self, name: &'static str, handle: BaseWidget) -> (r: AttrCommand)
        requires
            valid_id(self.id()),
            valid_id(handle.id()),
        ensures
            r.target == self.id(),
            r.name@ == name@,
            r.value == AttrValue::Handle(handle.id()),
            r.wf(),
    {
        AttrCommand { target: self.raw, name, value: AttrValue::Handle(handle.raw) }
    }

    /// Consumes the wrapper and yields the handle id whose widget the
    /// shell must now release. Taking `self` by value is the point:
    /// after this call the wrapper is gone, so the foreign release can
    /// be issued at most once through it.
    pub fn destroy(self) -> (r: u64)
        requires
            valid_id(self.id()),
        ensures
            r == self.id(),
            r != 0,
    {
        self.raw
    }

    /// Decides the downcast from the live class tag the shell read off
    /// the toolkit. On a match the handle is rebranded, ownership and id
    /// intact; on a mismatch the original wrapper comes back unchanged.
    pub fn downcast<T: Downcast>(self, live_class: &str) -> (r: Result<T, BaseWidget>)
        ensures
            live_class@ == T::classname_spec() ==> (r matches Ok(t) && t.base_of() == self),
            live_class@ != T::classname_spec() ==> (r matches Err(b) && b == self),
    {
        let expected = T::classname();
        if live_class.to_owned() == expected.to_owned() {
            Ok(T::from_base(self))
        } else {
            Err(self)
        }
    }
}

impl BorrowedWidget {
    /// The viewed handle id. `0` is the toolkit's null handle.
    pub closed spec fn id(&self) -> u64 {
        self.raw
    }

    /// Wraps what a handle-valued attribute read reported: the null id
    /// means no handle was set there, and becomes `None`.
    pub fn from_raw_opt(id: u64) -> (w: Option<BorrowedWidget>)
        ensures
            match w {
                Some(b) => valid_id(id) && b.id() == id,
                None => id == 0,
            },
    {
        if id != 0 {
            Some(BorrowedWidget { raw: id })
        } else {
            None
        }
    }

    /// The raw handle id, for foreign calls that leave ownership alone.
    pub fn as_raw(&self) -> (r: u64)
        ensures
            r == self.id(),
    {
        self.raw
    }

    /// Builds the order to set a text attribute on the viewed widget.
    /// A borrowed handle may be mutated; only releasing it is reserved
    /// to its owner.
    pub fn set_str_attribute(&self, name: &'static str, val: Vec<u8>) -> (r: Result<
        AttrCommand,
        AttrError,
    >)
        requires
            valid_id(self.id()),
        ensures
            nul_free(val@) ==> (r matches Ok(cmd) && cmd.target == self.id() && cmd.name@ == name@
                && (cmd.value matches AttrValue::Text(b) && b@ == val@) && cmd.wf()),
            !nul_free(val@) ==> r == Result::<AttrCommand, AttrError>::Err(AttrError::InteriorNul),
    {
        crate::attr::text_update(self.raw, name, val)
    }

    /// Builds the order for an optional text attribute on the viewed
    /// widget: `None` clears it, by null, as on an owned handle.
    pub fn set_opt_str_attribute(&self, name: &'static str, val: Option<Vec<u8>>) -> (r: Result<
        AttrCommand,
        AttrError,
    >)
        requires
            valid_id(self.id()),
        ensures
            val is None ==> (r matches Ok(cmd) && cmd.target == self.id() && cmd.name@ == name@
                && cmd.value is Clear && cmd.wf()),
            val matches Some(v) ==> if nul_free(v@) {
                r matches Ok(cmd) && cmd.target == self.id() && cmd.name@ == name@ && (
                cmd.value matches AttrValue::Text(b) && b@ == v@) && cmd.wf()
            } else {
                r == Result::<AttrCommand, AttrError>::Err(AttrError::InteriorNul)
            },
    {
        crate::attr::opt_text_update(self.raw, name, val)
    }
}

} // verus!
