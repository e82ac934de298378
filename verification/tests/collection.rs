use metal::Array;
use metal::BorrowedView;
use metal::MTLDrawable;
use metal::OwnedHandle;
use metal::Runtime;

fn three_objects(rt: &mut Runtime) -> Vec<OwnedHandle<MTLDrawable>> {
    let mut handles: Vec<OwnedHandle<MTLDrawable>> = Vec::new();
    for _ in 0..3 {
        let id = rt.alloc_object();
        handles.push(OwnedHandle::from_ptr(id));
    }
    handles
}

#[test]
fn empty_borrowed_slice_yields_a_valid_zero_element_collection() {
    let mut rt = Runtime::new();
    let empty: Vec<BorrowedView<MTLDrawable>> = Vec::new();
    let a = Array::from_slice(&mut rt, empty.as_slice());
    assert_eq!(rt.ref_count(a.as_ptr()), 1);
    assert_eq!(a.borrow().len(&rt), 0);
    a.destroy(&mut rt);
}

#[test]
fn empty_owned_slice_yields_a_valid_zero_element_collection() {
    let mut rt = Runtime::new();
    let empty: Vec<OwnedHandle<MTLDrawable>> = Vec::new();
    let a = Array::from_owned_slice(&mut rt, empty.as_slice());
    assert_eq!(rt.ref_count(a.as_ptr()), 1);
    assert_eq!(a.borrow().len(&rt), 0);
    a.destroy(&mut rt);
}

#[test]
fn from_slice_reads_back_the_inputs_in_order() {
    let mut rt = Runtime::new();
    let handles = three_objects(&mut rt);
    let views: Vec<BorrowedView<MTLDrawable>> =
        handles.iter().map(|h| h.borrow()).collect();
    let a = Array::from_slice(&mut rt, views.as_slice());
    let r = a.borrow();
    assert_eq!(r.len(&rt), 3);
    for i in 0..3 {
        assert_eq!(r.get(&rt, i).as_ptr(), views[i].as_ptr());
    }
}

#[test]
fn from_owned_slice_reads_back_the_inputs_in_order() {
    let mut rt = Runtime::new();
    let handles = three_objects(&mut rt);
    let a = Array::from_owned_slice(&mut rt, handles.as_slice());
    let r = a.borrow();
    assert_eq!(r.len(&rt), 3);
    for i in 0..3 {
        assert_eq!(r.get(&rt, i).as_ptr(), handles[i].as_ptr());
    }
    // The owned inputs were only read: each still holds its one count.
    for h in &handles {
        assert_eq!(rt.ref_count(h.as_ptr()), 1);
    }
}

#[test]
fn construction_does_not_retain_the_elements_at_this_boundary() {
    let mut rt = Runtime::new();
    let handles = three_objects(&mut rt);
    let views: Vec<BorrowedView<MTLDrawable>> =
        handles.iter().map(|h| h.borrow()).collect();
    let _a = Array::from_slice(&mut rt, views.as_slice());
    for h in &handles {
        assert_eq!(rt.ref_count(h.as_ptr()), 1);
    }
}

#[test]
fn duplicates_share_identity_under_mutation() {
    let mut rt = Runtime::new();
    let handles = three_objects(&mut rt);
    let views: Vec<BorrowedView<MTLDrawable>> =
        handles.iter().map(|h| h.borrow()).collect();
    let first = Array::from_slice(&mut rt, views.as_slice());
    let second = first.duplicate(&mut rt);
    assert_eq!(second.as_ptr(), first.as_ptr());
    assert_eq!(rt.ref_count(first.as_ptr()), 2);

    // Mutate the underlying foreign sequence through the first handle:
    // replace the element at position 1 with the object at position 0.
    let replacement = first.borrow().get(&rt, 0);
    rt.seq_replace(first.as_ptr(), 1, replacement.as_ptr());

    // The change is observable through the other duplicate.
    let r = second.borrow();
    assert_eq!(r.len(&rt), 3);
    assert_eq!(r.get(&rt, 1).as_ptr(), views[0].as_ptr());
    assert_eq!(r.get(&rt, 0).as_ptr(), views[0].as_ptr());
    assert_eq!(r.get(&rt, 2).as_ptr(), views[2].as_ptr());

    second.destroy(&mut rt);
    assert_eq!(rt.ref_count(first.as_ptr()), 1);
    first.destroy(&mut rt);
    assert_eq!(rt.ref_count(r.as_ptr()), 0);
}

#[test]
fn a_collection_view_can_become_an_independent_owned_collection() {
    let mut rt = Runtime::new();
    let handles = three_objects(&mut rt);
    let a = Array::from_owned_slice(&mut rt, handles.as_slice());
    let r = a.borrow();
    let b = r.to_owned(&mut rt);
    assert_eq!(b.as_ptr(), a.as_ptr());
    assert_eq!(rt.ref_count(a.as_ptr()), 2);
    a.destroy(&mut rt);
    assert_eq!(rt.ref_count(b.as_ptr()), 1);
    assert_eq!(b.borrow().len(&rt), 3);
    b.destroy(&mut rt);
}
