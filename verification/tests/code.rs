use sart::code::lock::{
    is_pinned, is_unlocked, pin_mask, reader_flags, unlocked_word, write_step, WriteStep,
    LOCKED, MASK, PINNED, SH_AMT, U8_PINNED,
};
use sart::code::{CodeGuard, StoredCode, SwappableCodeStore, WriteAttempt, WriteToken};
use std::sync::Arc;

fn lock_for_write<T>(store: &SwappableCodeStore<T>) -> Option<WriteToken<'_, T>> {
    match store.try_write_lock(store.lock_word(), 1, Some(1)) {
        WriteAttempt::Locked(token) => Some(token),
        _ => None,
    }
}

#[test]
fn lock_word_constants() {
    assert_eq!(LOCKED, 1 << 31);
    assert_eq!(PINNED, 1 << 30);
    assert_eq!(MASK, !(LOCKED | PINNED));
    assert_eq!(SH_AMT, 30);
    assert_eq!(U8_PINNED, 1);
}

#[test]
fn reader_flags_report_the_pin() {
    assert_eq!(reader_flags(0), 0);
    assert_eq!(reader_flags(5), 0);
    assert_eq!(reader_flags(PINNED | 3), 1);
    assert_eq!(reader_flags(LOCKED | PINNED), 1);
    assert_eq!(reader_flags(LOCKED | MASK), 0);
}

#[test]
fn pin_mask_reads_bit_zero_only() {
    assert_eq!(pin_mask(0), 0);
    assert_eq!(pin_mask(1), PINNED);
    assert_eq!(pin_mask(0xFE), 0);
    assert_eq!(pin_mask(0xFF), PINNED);
}

#[test]
fn unlocking_clears_lock_keeps_readers_and_sets_pin() {
    assert_eq!(unlocked_word(LOCKED, 0), 0);
    assert_eq!(unlocked_word(LOCKED | 7, 0), 7);
    assert_eq!(unlocked_word(LOCKED, 1), PINNED);
    assert_eq!(unlocked_word(LOCKED | PINNED | 2, 0), PINNED | 2);
}

#[test]
fn write_steps() {
    assert_eq!(write_step(0, 1, None), WriteStep::Lock(LOCKED));
    assert_eq!(write_step(0, 3, Some(2)), WriteStep::GiveUp);
    assert_eq!(write_step(0, 2, Some(2)), WriteStep::Lock(LOCKED));
    assert_eq!(write_step(PINNED, 1, None), WriteStep::GiveUp);
    assert_eq!(write_step(4, 1, None), WriteStep::Wait);
    assert_eq!(write_step(4, 9, Some(8)), WriteStep::GiveUp);
}

#[test]
fn word_predicates() {
    assert!(is_unlocked(0));
    assert!(is_unlocked(PINNED | 9));
    assert!(!is_unlocked(LOCKED));
    assert!(is_pinned(PINNED));
    assert!(!is_pinned(LOCKED | MASK));
}

#[test]
fn new_store_hands_out_its_code() {
    let store = SwappableCodeStore::new(vec![1u8, 2, 3]);
    let (flags, guard) = store.try_get().expect("nobody writes");
    assert_eq!(flags, 0);
    assert_eq!(guard.reference(), &vec![1u8, 2, 3]);
    assert_eq!(guard.len(), 3);
    assert_eq!(store.lock_word(), 0);
    assert!(!store.is_write_locked());
}

#[test]
fn readers_stay_out_while_a_writer_holds_the_store() {
    let store = SwappableCodeStore::new(1u32);
    let token = lock_for_write(&store).unwrap();
    assert!(store.is_write_locked());
    assert!(store.try_get().is_none());
    assert_eq!(store.lock_word(), LOCKED);
    token.publish(0, 2);
    assert!(!store.is_write_locked());
    let (flags, guard) = store.try_get().unwrap();
    assert_eq!((flags, *guard.reference()), (0, 2));
}

#[test]
fn a_guard_keeps_its_version_after_a_swap() {
    let store = SwappableCodeStore::new(String::from("old"));
    let (_, guard) = store.try_get().unwrap();
    let token = lock_for_write(&store).unwrap();
    token.publish(0, String::from("new"));
    assert_eq!(guard.reference(), "old");
    let (_, fresh) = store.try_get().unwrap();
    assert_eq!(&*fresh, "new");
}

#[test]
fn get_raw_needs_a_pin() {
    let store = SwappableCodeStore::new(10u64);
    assert_eq!(store.get_raw(), None);
    assert_eq!(store.lock_word(), 0);
    let token = lock_for_write(&store).unwrap();
    token.publish(U8_PINNED, 11);
    assert_eq!(store.lock_word(), PINNED);
    assert_eq!(store.get_raw(), Some(&11));
    // the permanent reader never leaves
    assert_eq!(store.lock_word(), PINNED | 1);
    let (flags, guard) = store.try_get().unwrap();
    assert_eq!((flags, *guard.reference()), (1, 11));
}

#[test]
fn a_pinned_store_refuses_writers() {
    let store = SwappableCodeStore::new(0u8);
    let token = lock_for_write(&store).unwrap();
    token.publish(U8_PINNED, 1);
    assert_eq!(write_step(store.lock_word(), 1, None), WriteStep::GiveUp);
    assert!(matches!(store.try_write_lock(store.lock_word(), 1, None), WriteAttempt::GiveUp));
    assert_eq!(store.set_bounded(0, 2, 5), None);
    assert_eq!(*store.try_get().unwrap().1.reference(), 1);
}

#[test]
fn try_write_lock_retries_on_a_stale_word() {
    let store = SwappableCodeStore::new(0u8);
    assert!(matches!(store.try_write_lock(LOCKED, 1, None), WriteAttempt::Retry(0)));
    assert!(!store.is_write_locked());
}

#[test]
fn try_write_lock_waits_for_readers_and_counts_tries() {
    let store = SwappableCodeStore::new(7u8);
    assert!(matches!(store.try_write_lock(3, 1, None), WriteAttempt::Wait(0)));
    assert!(matches!(store.try_write_lock(0, 2, Some(1)), WriteAttempt::GiveUp));
    assert!(!store.is_write_locked());
}

#[test]
fn set_bounded_replaces_and_pins() {
    let store = SwappableCodeStore::new(String::from("a"));
    assert_eq!(store.set_bounded(0, String::from("b"), 0), None);
    assert_eq!(store.try_get().unwrap().1.reference(), "a");
    assert_eq!(store.set_bounded(0, String::from("b"), 3), Some(()));
    let (flags, guard) = store.try_get().unwrap();
    assert_eq!((flags, guard.reference().as_str()), (0, "b"));
    assert_eq!(store.set_bounded(U8_PINNED, String::from("c"), 3), Some(()));
    let (flags, guard) = store.try_get().unwrap();
    assert_eq!((flags, guard.reference().as_str()), (1, "c"));
    assert_eq!(store.set_bounded(0, String::from("d"), 3), None);
    assert_eq!(store.lock_word(), PINNED);
}

#[test]
fn guards_convert_to_and_from_shared_versions() {
    let shared = Arc::new(StoredCode { code: 42i32 });
    let guard = CodeGuard::from_shared(shared.clone());
    assert_eq!(*guard.reference(), 42);
    let back = guard.into_shared();
    assert!(Arc::ptr_eq(&back, &shared));
    assert_eq!(back.code, 42);
}

#[test]
fn into_shared_releases_the_current_version() {
    let store = SwappableCodeStore::new(String::from("a"));
    let (_, guard) = store.try_get().unwrap();
    assert_eq!(store.set_bounded(0, String::from("b"), 2), Some(()));
    let shared = store.into_shared();
    assert_eq!(shared.code, "b");
    assert_eq!(Arc::strong_count(&shared), 1);
    assert_eq!(guard.reference(), "a");
}

#[test]
fn get_raw_of_an_unpinned_store_leaves_again() {
    let store = SwappableCodeStore::new(3u8);
    assert_eq!(store.get_raw(), None);
    assert_eq!(store.get_raw(), None);
    assert_eq!(store.lock_word(), 0);
}
