//! Concrete foreign object kinds of the CoreAnimation surface, expressed
//! through the generic handle pair, together with the one capability-chain
//! relation the surface declares.
//!
//! These kinds are mechanical consumers of the ownership layer: each is a
//! marker with no data of its own, every handle operation comes from
//! [`OwnedHandle`] and [`BorrowedView`], and the drawable's "is-a" relation
//! to the general drawable kind is declared once, mirroring the foreign
//! class hierarchy.

use vstd::prelude::*;

use crate::handle::BorrowedView;
use crate::handle::ForeignKind;
use crate::handle::OwnedHandle;
use crate::handle::SubkindOf;

verus! {

/// The general drawable kind of the foreign runtime.
pub struct MTLDrawable;

impl ForeignKind for MTLDrawable {

}

/// The drawable kind a CoreAnimation layer vends. The kind is a marker:
/// values of it are never made, only handles on foreign objects of it.
pub enum CAMetalDrawable {
    Opaque,
}

impl ForeignKind for CAMetalDrawable {

}

/// A CoreAnimation drawable is-a drawable in the foreign class hierarchy,
/// so its borrowed view may stand wherever a drawable view is expected.
impl SubkindOf<MTLDrawable> for CAMetalDrawable {

}

/// The CoreAnimation layer kind. The kind is a marker: values of it are
/// never made, only handles on foreign objects of it.
pub enum CAMetalLayer {
    Opaque,
}

impl ForeignKind for CAMetalLayer {

}

/// An owned handle on a CoreAnimation drawable.
pub type CoreAnimationDrawable = OwnedHandle<CAMetalDrawable>;

/// A borrowed view of a CoreAnimation drawable.
pub type CoreAnimationDrawableRef = BorrowedView<CAMetalDrawable>;

/// An owned handle on a CoreAnimation layer.
pub type CoreAnimationLayer = OwnedHandle<CAMetalLayer>;

/// A borrowed view of a CoreAnimation layer.
pub type CoreAnimationLayerRef = BorrowedView<CAMetalLayer>;

/// A borrowed view of a general drawable.
pub type DrawableRef = BorrowedView<MTLDrawable>;

} // verus!
