//! A safe ownership layer over objects that live in an externally
//! reference-counted runtime: objects reached only through opaque pointers,
//! whose lifetime is managed by manual retain/release calls and whose
//! operations are invoked by dynamic dispatch.
//!
//! The layer reproduces two guarantees a caller expects from owned and
//! borrowed values — exactly-once release and safe read-only sharing — on
//! top of a foreign object model that has no compile-time concept of either.
//! The runtime substrate itself is modelled by [`runtime::Runtime`], a
//! reference-count-tracking state against which every contract here is
//! verified; the raw dispatch bindings that drive a concrete runtime live
//! outside the verified library.

pub mod array;
pub mod bridge;
pub mod handle;
pub mod kinds;
pub mod runtime;

pub use array::Array;
pub use array::ArrayRef;
pub use array::NSArray;
pub use bridge::ErrorSlot;
pub use handle::BorrowedView;
pub use handle::ForeignKind;
pub use handle::OwnedHandle;
pub use handle::SubkindOf;
pub use kinds::CAMetalDrawable;
pub use kinds::CAMetalLayer;
pub use kinds::CoreAnimationDrawable;
pub use kinds::CoreAnimationDrawableRef;
pub use kinds::CoreAnimationLayer;
pub use kinds::CoreAnimationLayerRef;
pub use kinds::DrawableRef;
pub use kinds::MTLDrawable;
pub use runtime::ObjModel;
pub use runtime::Runtime;
