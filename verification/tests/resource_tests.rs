use canon_rt::boundary::LocalBoundary;
use canon_rt::guard::CtorGuard;
use canon_rt::lift::CanonError;
use canon_rt::resource::{Resource, RustResource, WasmResource, SENTINEL};
use canon_rt::slots::SlotArena;

#[test]
fn take_handle_observes_the_live_value_once() {
    let mut r = Resource::<LocalBoundary>::from_handle(7);
    assert_eq!(Resource::take_handle(&mut r), 7);
    assert_eq!(Resource::take_handle(&mut r), SENTINEL);
    assert_eq!(Resource::take_handle(&mut r), SENTINEL);
}

#[test]
fn handle_reads_without_transferring() {
    let r = Resource::<LocalBoundary>::from_handle(3);
    assert_eq!(Resource::handle(&r), 3);
    assert_eq!(Resource::handle(&r), 3);
}

#[test]
fn destroy_of_live_resource_drops_on_the_boundary() {
    let mut boundary = LocalBoundary::new();
    let mut slots: SlotArena<u64> = SlotArena::new();
    let r = Resource::new(&mut boundary, &mut slots, 42u64);
    let h = Resource::handle(&r);
    assert!(boundary.is_live(h));
    Resource::destroy(r, &mut boundary);
    assert!(!boundary.is_live(h));
}

#[test]
fn destroy_after_take_never_reaches_the_boundary() {
    let mut boundary = LocalBoundary::new();
    let mut slots: SlotArena<u64> = SlotArena::new();
    let mut r = Resource::new(&mut boundary, &mut slots, 42u64);
    let h = Resource::take_handle(&mut r);
    assert!(boundary.is_live(h));
    Resource::destroy(r, &mut boundary);
    assert!(boundary.is_live(h));
}

#[test]
fn new_then_rep_returns_the_registered_token() {
    let mut boundary = LocalBoundary::new();
    let h = boundary.new_handle(55);
    assert_ne!(h, SENTINEL);
    assert_eq!(boundary.rep(h), 55);
    let h2 = boundary.new_handle(99);
    assert_ne!(h2, h);
    assert_eq!(boundary.rep(h2), 99);
    assert_eq!(boundary.rep(h), 55);
}

#[test]
fn take_back_returns_the_boxed_value() {
    let mut boundary = LocalBoundary::new();
    let mut slots: SlotArena<String> = SlotArena::new();
    let r = Resource::new(&mut boundary, &mut slots, String::from("payload"));
    assert_eq!(
        Resource::into_inner(r, &boundary, &mut slots),
        Ok(String::from("payload")),
    );
}

#[test]
fn second_take_back_on_the_same_slot_is_refused() {
    let mut boundary = LocalBoundary::new();
    let mut slots: SlotArena<u64> = SlotArena::new();
    let r = Resource::new(&mut boundary, &mut slots, 42u64);
    let h = Resource::handle(&r);
    assert_eq!(Resource::into_inner(r, &boundary, &mut slots), Ok(42));
    let again = Resource::<LocalBoundary>::from_handle(h);
    assert_eq!(
        Resource::into_inner(again, &boundary, &mut slots),
        Err(CanonError::EmptySlot),
    );
}

#[test]
fn borrow_leaves_the_slot_populated() {
    let mut boundary = LocalBoundary::new();
    let mut slots: SlotArena<u64> = SlotArena::new();
    let r = Resource::new(&mut boundary, &mut slots, 42u64);
    let token = boundary.rep(Resource::handle(&r));
    assert_eq!(Resource::<LocalBoundary>::lift_borrow(token, &slots), Ok(&42));
    assert_eq!(Resource::<LocalBoundary>::lift_borrow(token, &slots), Ok(&42));
    assert_eq!(Resource::into_inner(r, &boundary, &mut slots), Ok(42));
    assert_eq!(
        Resource::<LocalBoundary>::lift_borrow(token, &slots),
        Err(CanonError::EmptySlot),
    );
}

#[test]
fn slot_arena_refuses_unknown_tokens() {
    let mut slots: SlotArena<u64> = SlotArena::new();
    assert_eq!(slots.take(0), Err(CanonError::EmptySlot));
    let token = slots.insert(5);
    assert_eq!(slots.take(token + 1), Err(CanonError::EmptySlot));
    assert_eq!(slots.take(token), Ok(5));
    assert_eq!(slots.take(token), Err(CanonError::EmptySlot));
}

#[test]
fn ctor_guard_runs_initializers_exactly_once() {
    let mut guard = CtorGuard::new();
    assert!(guard.enter());
    assert!(!guard.enter());
    assert!(!guard.enter());
}
