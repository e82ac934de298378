use metal::BorrowedView;
use metal::CAMetalDrawable;
use metal::CAMetalLayer;
use metal::MTLDrawable;
use metal::OwnedHandle;
use metal::Runtime;

#[test]
fn take_over_pointer_and_read_it_back() {
    let mut rt = Runtime::new();
    let id = rt.alloc_object();
    let h: OwnedHandle<CAMetalLayer> = OwnedHandle::from_ptr(id);
    assert_eq!(h.as_ptr(), id);
    // Taking over an already-counted pointer performs no retain.
    assert_eq!(rt.ref_count(id), 1);
    h.destroy(&mut rt);
    assert_eq!(rt.ref_count(id), 0);
}

#[test]
fn balanced_duplicates_reach_zero_exactly_at_the_last_destroy() {
    let mut rt = Runtime::new();
    let id = rt.alloc_object();
    let original: OwnedHandle<MTLDrawable> = OwnedHandle::from_ptr(id);

    // N = 3 duplicates: net +3 retains on top of the original ownership.
    let d1 = original.duplicate(&mut rt);
    assert_eq!(rt.ref_count(id), 2);
    let d2 = original.duplicate(&mut rt);
    assert_eq!(rt.ref_count(id), 3);
    let d3 = d2.duplicate(&mut rt);
    assert_eq!(rt.ref_count(id), 4);

    // N + 1 = 4 destroys: the count stays positive until the last one.
    d1.destroy(&mut rt);
    assert_eq!(rt.ref_count(id), 3);
    d2.destroy(&mut rt);
    assert_eq!(rt.ref_count(id), 2);
    d3.destroy(&mut rt);
    assert_eq!(rt.ref_count(id), 1);
    original.destroy(&mut rt);
    assert_eq!(rt.ref_count(id), 0);
}

#[test]
fn borrowing_never_touches_the_count() {
    let mut rt = Runtime::new();
    let id = rt.alloc_object();
    let h: OwnedHandle<CAMetalDrawable> = OwnedHandle::from_ptr(id);
    let v = h.borrow();
    let w = v.reborrow();
    assert_eq!(v.as_ptr(), id);
    assert_eq!(w.as_ptr(), id);
    assert_eq!(rt.ref_count(id), 1);
    h.destroy(&mut rt);
}

#[test]
fn upcast_exposes_the_identical_pointer() {
    let mut rt = Runtime::new();
    let id = rt.alloc_object();
    let h: OwnedHandle<CAMetalDrawable> = OwnedHandle::from_ptr(id);
    let v = h.borrow();
    let general: BorrowedView<MTLDrawable> = v.upcast();
    assert_eq!(general.as_ptr(), v.as_ptr());
    assert_eq!(general.as_ptr(), h.as_ptr());
    // Reinterpretation is not a new object and changes no count.
    assert_eq!(rt.ref_count(id), 1);
    h.destroy(&mut rt);
}

#[test]
fn to_owned_retains_once_and_shares_identity() {
    let mut rt = Runtime::new();
    let id = rt.alloc_object();
    let h: OwnedHandle<CAMetalLayer> = OwnedHandle::from_ptr(id);
    let v = h.borrow();
    let second = v.to_owned(&mut rt);
    assert_eq!(second.as_ptr(), h.as_ptr());
    assert_eq!(rt.ref_count(id), 2);
    second.destroy(&mut rt);
    h.destroy(&mut rt);
    assert_eq!(rt.ref_count(id), 0);
}

#[test]
fn views_received_from_the_runtime_are_non_owning() {
    let mut rt = Runtime::new();
    let id = rt.alloc_object();
    let v: BorrowedView<MTLDrawable> = BorrowedView::from_ptr(id);
    assert_eq!(v.as_ptr(), id);
    assert_eq!(rt.ref_count(id), 1);
}
