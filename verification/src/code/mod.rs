//! A store of code that readers share and a single writer can swap, until the
//! code is pinned.
pub mod lock;

use std::sync::Arc;
use std::sync::atomic::AtomicU32;
use std::sync::atomic::Ordering;
use vstd::prelude::*;
use vstd::rwlock::RwLock;
use vstd::rwlock::RwLockPredicate;

use crate::code::lock::{
    is_pinned, is_unlocked, law_writer_gives_up, pin_mask, reader_flags, spec_is_locked,
    spec_is_pinned, spec_reader_flags, spec_readers, spec_write_step, write_step, WriteStep,
    LOCKED, U8_PINNED,
};

verus! {

/// One version of the code held by a store; readers share it.
pub struct StoredCode<T> {
    pub code: T,
}

/// A reader's share of one version of the code; the version lives as long as
/// some guard or the store holds it.
pub struct CodeGuard<T>(Arc<StoredCode<T>>);

/// Any version of the code may sit in the store's slot.
pub struct AnyCode;

impl<T> RwLockPredicate<Arc<StoredCode<T>>> for AnyCode {
    open spec fn inv(self, v: Arc<StoredCode<T>>) -> bool {
        true
    }
}

/// The write lock of one store, held: only a successful
/// `SwappableCodeStore::try_write_lock` on that store makes one, and
/// `WriteToken::publish` spends it on the same store.
pub struct WriteToken<'a, T> {
    store: &'a SwappableCodeStore<T>,
}

/// The outcome of one attempt of a writer.
pub enum WriteAttempt<'a, T> {
    /// The code is pinned or the tries are used up: the writer stops.
    GiveUp,
    /// Readers are inside; carries the word read again.
    Wait(u32),
    /// The word changed under the writer; carries the word found.
    Retry(u32),
    /// The store is locked for the writer.
    Locked(WriteToken<'a, T>),
}

/// What a writer does after one attempt: stop with the given result, or try
/// again from the given word with its data back.
pub enum WriterNext<T> {
    Done(Option<()>),
    Again(u32, T),
}

/// Hints the processor that the thread is spinning.
///
/// Calls `std::hint::spin_loop`, which has no effect on the program's state.
#[verifier::external_body]
fn spin_hint() {
    std::hint::spin_loop()
}

/// Code that readers share and a single writer swaps.
///
/// Dropping a store does not drop its current version (the slot is a cell
/// that never drops what it holds): call `into_shared` to release it.
///
/// The lock word (see `lock`) counts the readers inside, and says whether a
/// writer holds the store and whether the code is pinned. A writer gets in
/// only when no reader is inside and the code is not pinned; a reader gets in
/// only when no writer holds the store. The slot that holds the current
/// version is only replaced by the holder of a write token.
pub struct SwappableCodeStore<T> {
    lock: AtomicU32,
    code: RwLock<Arc<StoredCode<T>>, AnyCode>,
}

impl<T> CodeGuard<T> {
    /// The code the guard shares.
    pub closed spec fn code(&self) -> T {
        self.0.code
    }

    /// The code the guard shares.
    pub fn reference<'a>(&'a self) -> (r: &'a T)
        ensures
            *r == self.code(),
    {
        &self.0.code
    }

    /// Gives up the guard for the shared version it holds.
    pub fn into_shared(self) -> (r: Arc<StoredCode<T>>)
        ensures
            r.code == self.code(),
    {
        self.0
    }

    /// A guard over a shared version.
    pub fn from_shared(shared: Arc<StoredCode<T>>) -> (r: Self)
        ensures
            r.code() == shared.code,
    {
        CodeGuard(shared)
    }
}

impl<T> core::ops::Deref for CodeGuard<T> {
    type Target = T;

    fn deref(&self) -> (r: &T)
        ensures
            *r == self.code(),
    {
        &self.0.code
    }
}

/// Leaks a box, so that what it holds lives for the rest of the program.
///
/// Calls `Box::leak`; trusted to give back a reference to the value that the
/// box held (which is what `Box::leak` documents).
#[verifier::external_body]
fn leak_box<V: 'static>(b: Box<V>) -> (r: &'static V)
    ensures
        *r == *b,
{
    Box::leak(b)
}

impl<T> SwappableCodeStore<T> {
    /// A store that holds `code`, with no reader inside, not locked and not
    /// pinned.
    pub fn new(code: T) -> (r: Self) {
        Self {
            lock: AtomicU32::new(0),
            code: RwLock::new(Arc::new(StoredCode { code }), Ghost(AnyCode)),
        }
    }

    /// A share of the current version.
    fn share_current(&self) -> Arc<StoredCode<T>> {
        let handle = self.code.acquire_read();
        let shared = handle.borrow().clone();
        handle.release_read();
        shared
    }

    /// The rest of a reader's attempt after it came in, having seen `seen`:
    /// when no writer held the store, a share of the current code and the
    /// flags byte of `seen` (`U8_PINNED` exactly when `seen` has the pin,
    /// whatever the reader count); else `None`. Either way the reader leaves.
    ///
    /// The pin of the word cannot change while this reader is inside a store
    /// that no writer held: only a writer sets it, and no writer locks the
    /// store while a reader is inside (`law_writer_excludes_readers`), so the
    /// word seen on the way in and the one seen on the way out agree on it.
    fn read_after_enter(&self, seen: u32) -> (r: Option<(u8, CodeGuard<T>)>)
        ensures
            r is None <==> spec_is_locked(seen),
            r matches Some((flags, _)) ==> flags == spec_reader_flags(seen),
            r matches Some((flags, _)) ==> (flags == U8_PINNED <==> spec_is_pinned(seen)),
            r matches Some((flags, _)) ==> flags <= U8_PINNED,
    {
        if is_unlocked(seen) {
            let out = CodeGuard(self.share_current());
            self.lock.fetch_sub(1, Ordering::Release);
            Some((reader_flags(seen), out))
        } else {
            self.lock.fetch_sub(1, Ordering::Release);
            None
        }
    }

    /// One attempt of a reader: when no writer holds the store, a share of
    /// the current code and the flags byte (`<reserved> [0: PINNED]`) of the
    /// word seen on the way in; when a writer holds it, `None`. The word seen
    /// on the way in decides, as `read_after_enter` states.
    pub fn try_get(&self) -> (r: Option<(u8, CodeGuard<T>)>)
        ensures
            r matches Some((flags, _)) ==> flags <= U8_PINNED,
    {
        let seen = self.lock.fetch_add(1, Ordering::Acquire);
        self.read_after_enter(seen)
    }

    /// Whether a writer holds the store now.
    pub fn is_write_locked(&self) -> (r: bool) {
        let w = self.lock.load(Ordering::Relaxed);
        !is_unlocked(w)
    }

    /// The rest of a permanent reader's visit after it came in, having seen
    /// `seen`: when `seen` has the pin, whatever the reader count, the code
    /// for the rest of the program (the reader stays inside); else `None`,
    /// and the reader leaves.
    fn raw_after_enter(&self, seen: u32) -> (r: Option<&'static T>)
        where
            T: 'static,
        ensures
            r is Some <==> spec_is_pinned(seen),
    {
        if !is_pinned(seen) {
            self.lock.fetch_sub(1, Ordering::Release);
            return None;
        }
        let shared = leak_box(Box::new(self.share_current()));
        Some(&shared.code)
    }

    /// A permanent reader: when the code is pinned, the code, for the rest of
    /// the program, and the reader never leaves; else `None`. The word seen on
    /// the way in decides, as `raw_after_enter` states.
    ///
    /// Each call that finds the code pinned keeps one reader inside for good
    /// and leaks one small allocation (the share it hands out), so call it
    /// fewer than 2^30 (1073741824) times: past that the reader count runs
    /// into the `PINNED` and `LOCKED` bits, the store reads as unpinned and
    /// locked, and every later reader waits forever.
    pub fn get_raw(&self) -> (r: Option<&'static T>)
        where
            T: 'static,
    {
        let seen = self.lock.fetch_add(1, Ordering::Acquire);
        self.raw_after_enter(seen)
    }

    /// The lock word now.
    pub fn lock_word(&self) -> (r: u32) {
        self.lock.load(Ordering::Relaxed)
    }

    /// One attempt of a writer on its `iteration`-th try (counted from 1),
    /// with at most `tries` tries (`None`: no limit), having seen the word
    /// `seen`: it does what `write_step` decides. When that is to lock, it
    /// tries to move the word from `seen` to the locked word, and hands out
    /// the write token on success.
    pub fn try_write_lock<'a>(&'a self, seen: u32, iteration: u32, tries: Option<u32>) -> (r:
        WriteAttempt<'a, T>)
        ensures
            spec_write_step(seen, iteration, tries) == WriteStep::GiveUp <==> r is GiveUp,
            spec_write_step(seen, iteration, tries) == WriteStep::Wait <==> r is Wait,
            spec_write_step(seen, iteration, tries) is Lock <==> (r is Retry || r is Locked),
            r matches WriteAttempt::Locked(t) ==> t.store() == self,
    {
        match write_step(seen, iteration, tries) {
            WriteStep::GiveUp => WriteAttempt::GiveUp,
            WriteStep::Wait => WriteAttempt::Wait(self.lock.load(Ordering::Relaxed)),
            WriteStep::Lock(target) => {
                match self.lock.compare_exchange_weak(
                    seen,
                    target,
                    Ordering::Acquire,
                    Ordering::Relaxed,
                ) {
                    Ok(_) => WriteAttempt::Locked(WriteToken { store: self }),
                    Err(found) => WriteAttempt::Retry(found),
                }
            },
        }
    }

    /// What a writer does after one attempt: it stops with `None` when it
    /// gives up; it publishes `data` and stops with `Some(())` when it holds
    /// the lock; it tries again from the word carried, with `data` back, when
    /// it must wait (after a spin hint) or retry.
    fn after_attempt(attempt: WriteAttempt<'_, T>, flags: u8, data: T) -> (r: WriterNext<T>)
        ensures
            attempt is GiveUp ==> r == WriterNext::<T>::Done(None),
            attempt is Locked ==> r == WriterNext::<T>::Done(Some(())),
            attempt matches WriteAttempt::Wait(w) ==> r == WriterNext::Again(w, data),
            attempt matches WriteAttempt::Retry(w) ==> r == WriterNext::Again(w, data),
    {
        match attempt {
            WriteAttempt::GiveUp => WriterNext::Done(None),
            WriteAttempt::Wait(now) => {
                spin_hint();
                WriterNext::Again(now, data)
            },
            WriteAttempt::Retry(found) => WriterNext::Again(found, data),
            WriteAttempt::Locked(token) => {
                token.publish(flags, data);
                WriterNext::Done(Some(()))
            },
        }
    }

    /// One attempt of a writer that still has tries left, having seen
    /// `seen`: it gives up (`Done(None)`) exactly when `seen` has the pin; it
    /// waits and tries again with `data` back when readers are inside; from
    /// a word with no reader and no pin it either locks, publishes `data` and
    /// stops with `Some(())`, or finds the word changed and tries again.
    fn write_attempt(&self, seen: u32, flags: u8, data: T) -> (r: WriterNext<T>)
        ensures
            r == WriterNext::<T>::Done(None) <==> spec_is_pinned(seen),
            !spec_is_pinned(seen) && spec_readers(seen) > 0 ==> (r matches WriterNext::Again(
                _,
                d,
            ) && d == data),
            !spec_is_pinned(seen) && spec_readers(seen) == 0 ==> (r == WriterNext::<T>::Done(
                Some(()),
            ) || (r matches WriterNext::Again(_, d) && d == data)),
    {
        proof {
            law_writer_gives_up(seen, 1, None);
        }
        let attempt = self.try_write_lock(seen, 1, None);
        Self::after_attempt(attempt, flags, data)
    }

    /// Replaces the code with `data`, pinning it when bit 0 of `flags` is
    /// set, in at most `tries` attempts; `None` when the code is pinned or
    /// the attempts run out (at once when `tries` is 0). Each attempt is
    /// `write_attempt`. Several writers at once are not allowed.
    pub fn set_bounded(&self, flags: u8, data: T, tries: u32) -> (r: Option<()>)
        ensures
            tries == 0 ==> r is None,
    {
        let mut seen = self.lock.load(Ordering::Relaxed);
        let mut data = data;
        let mut left = tries;
        while left > 0
            invariant
                left <= tries,
            decreases left,
        {
            left = left - 1;
            match self.write_attempt(seen, flags, data) {
                WriterNext::Done(r) => {
                    return r;
                },
                WriterNext::Again(w, d) => {
                    seen = w;
                    data = d;
                },
            }
        }
        None
    }

    /// Gives up the store for the version it holds now; dropping that share
    /// releases the code once no guard holds it.
    pub fn into_shared(self) -> (r: Arc<StoredCode<T>>) {
        self.code.into_inner()
    }
}

impl<'a, T> WriteToken<'a, T> {
    /// The store whose write lock the token holds.
    pub closed spec fn store(&self) -> SwappableCodeStore<T> {
        *self.store
    }

    /// The writer's critical section: puts `data` in place of the current
    /// code of the token's store, then lets go of the store, pinning the code
    /// when bit 0 of `flags` is set.
    pub fn publish(self, flags: u8, data: T) {
        let store = self.store;
        let (_old, handle) = store.code.acquire_write();
        handle.release_write(Arc::new(StoredCode { code: data }));
        store.lock.fetch_or(pin_mask(flags), Ordering::Release);
        store.lock.fetch_and(!LOCKED, Ordering::Release);
    }
}

} // verus!
