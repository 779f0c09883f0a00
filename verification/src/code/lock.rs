//! The lock word of a `SwappableCodeStore`.
//!
//! Bit 31 is `LOCKED` (a writer holds the store), bit 30 is `PINNED` (the
//! code can no longer be replaced, and permanent readers may hold it), and
//! the low 30 bits count the readers that are inside the store.
use vstd::prelude::*;

verus! {

/// Set while a writer holds the store.
pub const LOCKED: u32 = 0x8000_0000;

/// Set once the code is pinned; it is never cleared again.
pub const PINNED: u32 = 0x4000_0000;

/// The reader count bits.
pub const MASK: u32 = 0x3FFF_FFFF;

/// The shift from the bit 0 of the flags byte to `PINNED`.
pub const SH_AMT: u32 = 30;

/// The bit of the flags byte that stands for `PINNED`.
pub const U8_PINNED: u8 = 1;

/// Whether a writer holds the store.
pub open spec fn spec_is_locked(w: u32) -> bool {
    w & LOCKED != 0
}

/// Whether the code is pinned.
pub open spec fn spec_is_pinned(w: u32) -> bool {
    w & PINNED != 0
}

/// The number of readers inside the store.
pub open spec fn spec_readers(w: u32) -> u32 {
    w & MASK
}

/// The flags byte a reader reports for the word it saw: `U8_PINNED` when the
/// code is pinned, else 0.
pub open spec fn spec_reader_flags(w: u32) -> u8 {
    if spec_is_pinned(w) {
        U8_PINNED
    } else {
        0
    }
}

/// The lock word bits that a writer's flags byte sets: `PINNED` when bit 0 of
/// the flags is set; the other bits of the flags are reserved and ignored.
pub open spec fn spec_pin_mask(flags: u8) -> u32 {
    if flags & U8_PINNED != 0 {
        PINNED
    } else {
        0
    }
}

/// The word after a writer that saw `w` lets go of the store.
pub open spec fn spec_unlocked_word(w: u32, flags: u8) -> u32 {
    (w & !LOCKED) | spec_pin_mask(flags)
}

/// What a writer does next.
#[derive(Debug, Clone, Copy, PartialEq, Eq, Structural)]
pub enum WriteStep {
    /// Stop without writing: the code is pinned, or the tries are used up.
    GiveUp,
    /// Readers are inside: read the word again and retry.
    Wait,
    /// Try to move the word from what was seen to the given locked word.
    Lock(u32),
}

/// What a writer on its `iteration`-th try (counted from 1) does when it sees
/// the word `w`, with at most `tries` tries (`None`: no limit).
pub open spec fn spec_write_step(w: u32, iteration: u32, tries: Option<u32>) -> WriteStep {
    if tries matches Some(t) && iteration > t {
        WriteStep::GiveUp
    } else if spec_is_pinned(w) {
        WriteStep::GiveUp
    } else if spec_readers(w) > 0 {
        WriteStep::Wait
    } else {
        WriteStep::Lock(w | LOCKED)
    }
}

/// Whether a reader that saw `w` when it came in may read the code.
pub fn is_unlocked(w: u32) -> (r: bool)
    ensures
        r == !spec_is_locked(w),
{
    w & LOCKED == 0
}

/// Whether the word `w` says the code is pinned.
pub fn is_pinned(w: u32) -> (r: bool)
    ensures
        r == spec_is_pinned(w),
{
    w & PINNED != 0
}

/// The flags byte a reader reports for the word it saw on its way out.
pub fn reader_flags(w: u32) -> (r: u8)
    ensures
        r == spec_reader_flags(w),
        r <= U8_PINNED,
{
    let p = w & PINNED;
    assert(p == 0 || p == PINNED) by (bit_vector)
        requires
            p == w & 0x4000_0000u32,
    ;
    assert((0u32 >> 30u32) == 0u32) by (bit_vector);
    assert((0x4000_0000u32 >> 30u32) == 1u32) by (bit_vector);
    (p >> SH_AMT) as u8
}

/// The lock word bits that a writer's flags byte sets.
pub fn pin_mask(flags: u8) -> (r: u32)
    ensures
        r == spec_pin_mask(flags),
{
    let r = ((flags as u32) << SH_AMT) & PINNED;
    assert(((flags as u32) << 30u32) & 0x4000_0000u32 == (if flags & 1u8 != 0 {
        0x4000_0000u32
    } else {
        0u32
    })) by (bit_vector);
    r
}

/// The word after a writer that saw `w` lets go of the store.
pub fn unlocked_word(w: u32, flags: u8) -> (r: u32)
    ensures
        r == spec_unlocked_word(w, flags),
{
    (w & !LOCKED) | pin_mask(flags)
}

/// What a writer does next (see `spec_write_step`).
pub fn write_step(w: u32, iteration: u32, tries: Option<u32>) -> (r: WriteStep)
    ensures
        r == spec_write_step(w, iteration, tries),
{
    if let Some(t) = tries {
        if iteration > t {
            return WriteStep::GiveUp;
        }
    }
    if w & PINNED > 0 {
        return WriteStep::GiveUp;
    }
    if w & MASK > 0 {
        return WriteStep::Wait;
    }
    WriteStep::Lock(w | LOCKED)
}


/// The word after a reader comes in (the count wraps as the atomic add does).
pub open spec fn spec_reader_enter(w: u32) -> u32 {
    if w == u32::MAX { 0 } else { (w + 1) as u32 }
}

/// The word after a reader leaves (the count wraps as the atomic sub does).
pub open spec fn spec_reader_exit(w: u32) -> u32 {
    if w == 0 { u32::MAX } else { (w - 1) as u32 }
}

/// While the reader count has room, a reader coming in adds one to the count
/// and changes neither the `LOCKED` nor the `PINNED` bit, and leaving again
/// gives back the word it found.
pub proof fn law_reader_enter_exit(w: u32)
    requires
        spec_readers(w) < MASK,
    ensures
        spec_readers(spec_reader_enter(w)) == spec_readers(w) + 1,
        spec_is_locked(spec_reader_enter(w)) == spec_is_locked(w),
        spec_is_pinned(spec_reader_enter(w)) == spec_is_pinned(w),
        spec_reader_exit(spec_reader_enter(w)) == w,
{
    assert(w & 0x3FFF_FFFFu32 < 0x3FFF_FFFFu32 ==> w != 0xFFFF_FFFFu32) by (bit_vector);
    let v = (w + 1) as u32;
    assert(w & 0x3FFF_FFFFu32 < 0x3FFF_FFFFu32 && v == w + 1 ==> (v & 0x3FFF_FFFFu32) == (w
        & 0x3FFF_FFFFu32) + 1 && (v & 0x8000_0000u32) == (w & 0x8000_0000u32) && (v
        & 0x4000_0000u32) == (w & 0x4000_0000u32)) by (bit_vector);
}

/// A reader with company inside leaving takes one off the count and changes
/// neither the `LOCKED` nor the `PINNED` bit.
pub proof fn law_reader_exit(w: u32)
    requires
        spec_readers(w) > 0,
    ensures
        spec_readers(spec_reader_exit(w)) == spec_readers(w) - 1,
        spec_is_locked(spec_reader_exit(w)) == spec_is_locked(w),
        spec_is_pinned(spec_reader_exit(w)) == spec_is_pinned(w),
{
    assert(w & 0x3FFF_FFFFu32 > 0 ==> w != 0u32) by (bit_vector);
    let v = (w - 1) as u32;
    assert(w & 0x3FFF_FFFFu32 > 0 && v == w - 1 ==> (v & 0x3FFF_FFFFu32) == (w & 0x3FFF_FFFFu32)
        - 1 && (v & 0x8000_0000u32) == (w & 0x8000_0000u32) && (v & 0x4000_0000u32) == (w
        & 0x4000_0000u32)) by (bit_vector);
}

/// A reader reports the pinned bit of the word it saw, as the flags byte
/// `<reserved> [0: PINNED]`: 1 when pinned, 0 otherwise.
pub proof fn law_reader_flags(w: u32)
    ensures
        spec_reader_flags(w) <= 1,
        spec_reader_flags(w) == 1 <==> spec_is_pinned(w),
{
}

/// A writer locks the store only from a word with no reader inside and no
/// pin, and the word it locks to has the `LOCKED` bit, no reader, no pin, so
/// a reader that comes in then stays out.
pub proof fn law_writer_excludes_readers(w: u32, iteration: u32, tries: Option<u32>)
    ensures
        spec_write_step(w, iteration, tries) matches WriteStep::Lock(n) ==> {
            &&& spec_readers(w) == 0
            &&& !spec_is_pinned(w)
            &&& n == w | LOCKED
            &&& spec_is_locked(n)
            &&& spec_readers(n) == 0
            &&& !spec_is_pinned(n)
            &&& spec_is_locked(spec_reader_enter(n))
        },
{
    let n = w | 0x8000_0000u32;
    assert(w & 0x3FFF_FFFFu32 == 0 && w & 0x4000_0000u32 == 0 ==> (n & 0x8000_0000u32) != 0 && (n
        & 0x3FFF_FFFFu32) == 0 && (n & 0x4000_0000u32) == 0 && n != 0xFFFF_FFFFu32 && (((n
        + 1) as u32) & 0x8000_0000u32) != 0) by (bit_vector)
        requires
            n == w | 0x8000_0000u32,
    ;
}

/// A writer gives up once its tries are used up, and no writer ever locks a
/// store whose code is pinned.
pub proof fn law_writer_gives_up(w: u32, iteration: u32, tries: Option<u32>)
    ensures
        (tries matches Some(t) && iteration > t) ==> spec_write_step(w, iteration, tries)
            == WriteStep::GiveUp,
        spec_is_pinned(w) ==> spec_write_step(w, iteration, tries) == WriteStep::GiveUp,
        !spec_is_pinned(w) && spec_readers(w) > 0 && !(tries matches Some(t) && iteration > t)
            ==> spec_write_step(w, iteration, tries) == WriteStep::Wait,
        spec_write_step(w, iteration, tries) == WriteStep::GiveUp ==> ((tries matches Some(t)
            && iteration > t) || spec_is_pinned(w)),
        !spec_is_pinned(w) && spec_readers(w) == 0 && !(tries matches Some(t) && iteration > t)
            ==> spec_write_step(w, iteration, tries) is Lock,
{
}

/// The word with its reader count replaced by the count bits of `k`.
pub open spec fn with_readers(w: u32, k: u32) -> u32 {
    (w & !MASK) | (k & MASK)
}

/// What a reader reports, and whether a word is pinned or locked, do not
/// depend on how many readers are inside.
pub proof fn law_flags_ignore_reader_count(w: u32, k: u32)
    ensures
        spec_reader_flags(with_readers(w, k)) == spec_reader_flags(w),
        spec_is_pinned(with_readers(w, k)) == spec_is_pinned(w),
        spec_is_locked(with_readers(w, k)) == spec_is_locked(w),
        spec_readers(with_readers(w, k)) == k & MASK,
{
    assert(((w & !0x3FFF_FFFFu32) | (k & 0x3FFF_FFFFu32)) & 0x4000_0000u32 == w & 0x4000_0000u32
        && ((w & !0x3FFF_FFFFu32) | (k & 0x3FFF_FFFFu32)) & 0x8000_0000u32 == w & 0x8000_0000u32
        && ((w & !0x3FFF_FFFFu32) | (k & 0x3FFF_FFFFu32)) & 0x3FFF_FFFFu32 == k & 0x3FFF_FFFFu32)
        by (bit_vector);
}

/// Letting go of the store clears `LOCKED`, keeps the reader count, and
/// leaves the code pinned exactly when it was pinned or bit 0 of the flags is
/// set; setting the pin first and clearing `LOCKED` after gives the same word.
pub proof fn law_unlock(w: u32, flags: u8)
    ensures
        !spec_is_locked(spec_unlocked_word(w, flags)),
        spec_readers(spec_unlocked_word(w, flags)) == spec_readers(w),
        spec_is_pinned(spec_unlocked_word(w, flags)) <==> (spec_is_pinned(w) || flags & U8_PINNED
            != 0),
        (w | spec_pin_mask(flags)) & !LOCKED == spec_unlocked_word(w, flags),
{
    let m = spec_pin_mask(flags);
    assert(m == 0 || m == 0x4000_0000u32);
    let r = (w & !0x8000_0000u32) | m;
    assert((m == 0 || m == 0x4000_0000u32) && r == (w & !0x8000_0000u32) | m ==> {
        &&& r & 0x8000_0000u32 == 0
        &&& r & 0x3FFF_FFFFu32 == w & 0x3FFF_FFFFu32
        &&& (r & 0x4000_0000u32 != 0 <==> (w & 0x4000_0000u32 != 0 || m != 0))
        &&& (w | m) & !0x8000_0000u32 == r
    }) by (bit_vector);
}

/// Once pinned, always pinned: no step of the protocol clears the pin.
pub proof fn law_pin_is_permanent(w: u32, flags: u8, iteration: u32, tries: Option<u32>)
    requires
        spec_is_pinned(w),
    ensures
        spec_readers(w) < MASK ==> spec_is_pinned(spec_reader_enter(w)),
        spec_readers(w) > 0 ==> spec_is_pinned(spec_reader_exit(w)),
        spec_is_pinned(spec_unlocked_word(w, flags)),
        spec_is_pinned(w | spec_pin_mask(flags)),
        spec_write_step(w, iteration, tries) == WriteStep::GiveUp,
{
    if spec_readers(w) < MASK {
        law_reader_enter_exit(w);
    }
    if spec_readers(w) > 0 {
        law_reader_exit(w);
    }
    law_unlock(w, flags);
    let m = spec_pin_mask(flags);
    assert(w & 0x4000_0000u32 != 0 ==> (w | m) & 0x4000_0000u32 != 0) by (bit_vector);
}

} // verus!
