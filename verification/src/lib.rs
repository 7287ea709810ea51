//! A safety-oriented veneer over a handle-based native GUI toolkit.
//!
//! The toolkit itself owns every widget; this library models each live
//! widget as a plain integer handle id and verifies the bookkeeping the
//! veneer performs around the foreign calls: C-string payload validation,
//! the attribute-setting conventions (including "clear by passing null"),
//! the owned/borrowed handle distinction, and the class-tag downcast.
//! The foreign calls themselves are issued by an unverified shell that
//! consumes the commands this library produces.

use vstd::prelude::*;

pub mod attr;
pub mod button;
pub mod container;
pub mod cstr;
pub mod dialog;
pub mod image;
pub mod text;
pub mod widget;

pub use attr::{AttrCommand, AttrError, AttrValue};
pub use widget::{BaseWidget, BorrowedWidget, Downcast};

verus! {

/// A handle id of `0` stands for the toolkit's null handle: no widget
/// ever lives there, so a well-formed wrapper never carries it.
pub open spec fn valid_id(id: u64) -> bool {
    id != 0
}

} // verus!
