use v8_rs::v8::isolate::{IsolateId, V8Isolate, DEFAULT_MAX_HEAP_SIZE};
use v8_rs::{RawIndex, UserIndex, INTERNAL_OFFSET};

#[test]
fn isolate_limits() {
    let isolate = V8Isolate::new();
    assert_eq!(isolate.initial_heap_size, 0);
    assert_eq!(isolate.maximum_heap_size, DEFAULT_MAX_HEAP_SIZE);
    assert_eq!(DEFAULT_MAX_HEAP_SIZE, 1024 * 1024 * 1024);
    let small = V8Isolate::new_with_limits(1024, 4096);
    assert_eq!(small.initial_heap_size, 1024);
    assert_eq!(small.maximum_heap_size, 4096);
    assert!(!small.no_release);
    assert_eq!(IsolateId::from(7u64), IsolateId(7));
}

#[test]
fn user_indices_are_shifted() {
    assert_eq!(INTERNAL_OFFSET, 1);
    assert_eq!(RawIndex::from_user(UserIndex::from(0)), RawIndex(1));
    assert_eq!(RawIndex::from_user(UserIndex::from(41)), RawIndex(42));
}

#[test]
fn private_data_read_after_write() {
    let isolate = V8Isolate::new();
    let i_scope = isolate.enter();
    let mut ctx = i_scope.new_context::<String>(None);
    assert!(ctx.get_private_data(UserIndex::from(0)).is_none());
    let guard = ctx.set_private_data(UserIndex::from(0), "first".to_string());
    assert_eq!(guard.index, RawIndex(1));
    let _other = ctx.set_private_data(UserIndex::from(3), "other".to_string());
    assert_eq!(ctx.get_private_data(UserIndex::from(0)).unwrap(), "first");
    // A second write to the slot replaces the first.
    let _again = ctx.set_private_data(UserIndex::from(0), "second".to_string());
    assert_eq!(ctx.get_private_data(UserIndex::from(0)).unwrap(), "second");
    assert_eq!(ctx.get_private_data(UserIndex::from(3)).unwrap(), "other");
    // Modify in place.
    ctx.get_private_data_mut(UserIndex::from(3)).unwrap().push('!');
    assert_eq!(ctx.get_private_data(UserIndex::from(3)).unwrap(), "other!");
    // Releasing the guard empties the slot, and only that slot.
    guard.release(&mut ctx);
    assert!(ctx.get_private_data(UserIndex::from(0)).is_none());
    assert_eq!(ctx.get_private_data(UserIndex::from(3)).unwrap(), "other!");
}

#[test]
fn private_data_reset() {
    let isolate = V8Isolate::new();
    let i_scope = isolate.enter();
    let mut ctx = i_scope.new_context::<u64>(None);
    let _g = ctx.set_private_data(UserIndex::from(2), 9);
    ctx.reset_private_data(UserIndex::from(2));
    assert!(ctx.get_private_data(UserIndex::from(2)).is_none());
    assert!(ctx.get_private_data_mut(UserIndex::from(2)).is_none());
}

#[test]
fn context_scope_private_data() {
    let isolate = V8Isolate::new();
    let i_scope = isolate.enter();
    let ctx = i_scope.new_context::<u8>(None);
    let mut ctx_scope = ctx.enter(&i_scope);
    assert!(ctx_scope.is_exit_on_drop());
    let guard = ctx_scope.set_private_data(UserIndex::from(1), 5);
    assert_eq!(*ctx_scope.get_private_data(UserIndex::from(1)).unwrap(), 5);
    *ctx_scope.get_private_data_mut(UserIndex::from(1)).unwrap() = 6;
    assert_eq!(*ctx_scope.get_private_data(UserIndex::from(1)).unwrap(), 6);
    guard.release(&mut ctx_scope);
    assert!(ctx_scope.get_private_data(UserIndex::from(1)).is_none());
    ctx_scope.set_exit_on_drop(false);
    let (ctx, exit) = ctx_scope.exit();
    assert!(!exit);
    assert!(ctx.get_private_data(UserIndex::from(1)).is_none());
}
