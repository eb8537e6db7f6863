use vstd::prelude::*;

verus! {

/// How many lessons the completion bitmap can record.
pub const LESSON_CAPACITY: u16 = 256;

/// Lesson `i` is recorded as completed in `flags` (the four words of the bitmap).
pub open spec fn lesson_done(flags: Seq<u64>, i: int) -> bool {
    &&& 0 <= i < 256
    &&& (flags[i / 64] >> ((i % 64) as u64)) & 1u64 == 1u64
}

/// `flags` with lesson `i` recorded as completed.
pub open spec fn with_lesson(flags: Seq<u64>, i: int) -> Seq<u64> {
    flags.update(i / 64, flags[i / 64] | (1u64 << ((i % 64) as u64)))
}

/// The number of lessons below `n` recorded in `flags`.
pub open spec fn count_done_below(flags: Seq<u64>, n: nat) -> nat
    decreases n,
{
    if n == 0 {
        0
    } else {
        count_done_below(flags, (n - 1) as nat) + if lesson_done(flags, n - 1) {
            1nat
        } else {
            0nat
        }
    }
}

/// The number of lessons recorded in `flags`.
pub open spec fn completed_count(flags: Seq<u64>) -> nat {
    count_done_below(flags, 256)
}

/// The bitmap of a fresh enrollment.
pub open spec fn no_lessons() -> Seq<u64> {
    seq![0u64, 0u64, 0u64, 0u64]
}

/// Every lesson recorded in `flags` is one of the first `lesson_count` lessons.
pub open spec fn progress_within(flags: Seq<u64>, lesson_count: int) -> bool {
    forall|j: int| #[trigger] lesson_done(flags, j) ==> j < lesson_count
}

proof fn lemma_bit_of_set(w: u64, b: u64, j: u64)
    requires
        b < 64,
        j < 64,
    ensures
        ((w | (1u64 << b)) >> j) & 1u64 == (if j == b { 1u64 } else { (w >> j) & 1u64 }),
{
    assert(((w | (1u64 << b)) >> j) & 1u64 == (if j == b { 1u64 } else { (w >> j) & 1u64 }))
        by (bit_vector)
        requires
            b < 64,
            j < 64,
    ;
}

proof fn lemma_zero_bits(b: u64)
    ensures
        (0u64 >> b) & 1u64 == 0u64,
{
    assert((0u64 >> b) & 1u64 == 0u64) by (bit_vector);
}

/// Recording lesson `i` records `i` and changes no other lesson.
pub proof fn lemma_with_lesson_done(flags: Seq<u64>, i: int, j: int)
    requires
        flags.len() == 4,
        0 <= i < 256,
    ensures
        lesson_done(with_lesson(flags, i), j) == (j == i || lesson_done(flags, j)),
{
    if 0 <= j < 256 {
        if j / 64 == i / 64 {
            lemma_bit_of_set(flags[i / 64], (i % 64) as u64, (j % 64) as u64);
        }
    }
}

/// Counting below `n` after recording a lesson that was not yet recorded
/// finds one more lesson exactly when that lesson lies below `n`.
pub proof fn lemma_count_with_lesson(flags: Seq<u64>, i: int, n: nat)
    requires
        flags.len() == 4,
        0 <= i < 256,
        !lesson_done(flags, i),
    ensures
        count_done_below(with_lesson(flags, i), n) == count_done_below(flags, n) + if i < n {
            1nat
        } else {
            0nat
        },
    decreases n,
{
    if n > 0 {
        lemma_count_with_lesson(flags, i, (n - 1) as nat);
        lemma_with_lesson_done(flags, i, n - 1);
    }
}

/// No lesson is recorded in a fresh bitmap.
pub proof fn lemma_no_lessons_done(j: int)
    ensures
        !lesson_done(no_lessons(), j),
{
    if 0 <= j < 256 {
        lemma_zero_bits((j % 64) as u64);
    }
}

/// Nothing is counted in a fresh bitmap.
pub proof fn lemma_count_no_lessons(n: nat)
    ensures
        count_done_below(no_lessons(), n) == 0,
    decreases n,
{
    if n > 0 {
        lemma_count_no_lessons((n - 1) as nat);
        lemma_no_lessons_done(n - 1);
    }
}

/// At most `n` lessons lie below `n`.
pub proof fn lemma_count_at_most(flags: Seq<u64>, n: nat)
    ensures
        count_done_below(flags, n) <= n,
    decreases n,
{
    if n > 0 {
        lemma_count_at_most(flags, (n - 1) as nat);
    }
}

/// All `n` lessons below `n` are counted exactly when each of them is recorded.
pub proof fn lemma_count_full(flags: Seq<u64>, n: nat)
    ensures
        (count_done_below(flags, n) == n) <==> (forall|j: int|
            0 <= j < n ==> #[trigger] lesson_done(flags, j)),
    decreases n,
{
    if n > 0 {
        lemma_count_full(flags, (n - 1) as nat);
        lemma_count_at_most(flags, (n - 1) as nat);
        if count_done_below(flags, n) == n {
            assert forall|j: int| 0 <= j < n implies #[trigger] lesson_done(flags, j) by {
                if j < n - 1 {
                    assert(lesson_done(flags, j));
                }
            }
        }
    }
}

/// No lesson at or above `lesson_count` adds to the count.
pub proof fn lemma_count_stable(flags: Seq<u64>, lesson_count: nat, n: nat)
    requires
        progress_within(flags, lesson_count as int),
        lesson_count <= n,
    ensures
        count_done_below(flags, n) == count_done_below(flags, lesson_count),
    decreases n,
{
    if n > lesson_count {
        lemma_count_stable(flags, lesson_count, (n - 1) as nat);
        assert(!lesson_done(flags, n - 1));
    }
}

/// Whether lesson `i` is recorded in `flags`.
pub fn is_lesson_done(flags: &[u64; 4], i: u16) -> (r: bool)
    requires
        i < 256,
    ensures
        r == lesson_done(flags@, i as int),
{
    let word = flags[(i / 64) as usize];
    (word >> ((i % 64) as u64)) & 1u64 == 1u64
}

/// The number of lessons recorded in `flags`.
pub fn count_completed(flags: &[u64; 4]) -> (n: u32)
    ensures
        n == completed_count(flags@),
{
    let mut n: u32 = 0;
    let mut i: u16 = 0;
    while i < LESSON_CAPACITY
        invariant
            i <= 256,
            n <= i,
            n == count_done_below(flags@, i as nat),
        decreases 256 - i,
    {
        if is_lesson_done(flags, i) {
            n = n + 1;
        }
        i = i + 1;
    }
    n
}

} // verus!
