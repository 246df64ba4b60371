use vstd::prelude::*;

verus! {

/// Bytes moved per read/write cycle of a content copy (100 KiB).
pub const CHUNK_SIZE: usize = 102400;

/// The progress percentage after `done` of `total` bytes, held at 100 when
/// more bytes than expected were read. A zero total gives 100, so the
/// division is guarded.
pub open spec fn percent_of(done: int, total: int) -> int {
    if total <= 0 {
        100
    } else if done >= total {
        100
    } else {
        done * 100 / total
    }
}

/// The count of bytes copied after `len` more, held at the largest `u64`.
pub open spec fn add_capped(done: u64, len: usize) -> u64 {
    if done + len <= u64::MAX {
        (done + len) as u64
    } else {
        u64::MAX
    }
}

/// `done * 100 / total`, guarded against a zero total and held at 100.
pub fn progress_percent(done: u64, total: u64) -> (r: u64)
    ensures
        r == percent_of(done as int, total as int),
        r <= 100,
{
    if total == 0 || done >= total {
        100
    } else {
        let r = ((done as u128) * 100u128) / (total as u128);
        assert(r <= 100) by (nonlinear_arith)
            requires
                r == (done as int * 100) / total as int,
                done < total,
                total > 0,
        ;
        r as u64
    }
}

/// Adds the length of a chunk to a byte count.
pub fn advance(done: u64, len: usize) -> (r: u64)
    ensures
        r == add_capped(done, len),
{
    if (len as u64) <= u64::MAX - done {
        done + len as u64
    } else {
        u64::MAX
    }
}

/// Progress never goes back: more bytes done give at least the same percentage.
pub proof fn lemma_percent_monotone(d1: int, d2: int, total: int)
    requires
        0 <= d1 <= d2,
    ensures
        0 <= percent_of(d1, total) <= percent_of(d2, total) <= 100,
{
    if total > 0 && d1 < total {
        assert(d1 * 100 / total >= 0) by (nonlinear_arith)
            requires
                0 <= d1,
                total > 0,
        ;
    }
    if total > 0 && d2 < total {
        assert(d1 * 100 <= d2 * 100);
        assert(d1 * 100 / total <= d2 * 100 / total) by (nonlinear_arith)
            requires
                d1 * 100 <= d2 * 100,
                total > 0,
        ;
        assert(d2 * 100 / total <= 100) by (nonlinear_arith)
            requires
                d2 < total,
                0 <= d2,
                total > 0,
        ;
    } else if total > 0 && d1 < total {
        assert(d1 * 100 / total <= 100) by (nonlinear_arith)
            requires
                d1 < total,
                0 <= d1,
                total > 0,
        ;
    }
}

/// The percentage is exactly 100 once every expected byte is done.
pub proof fn lemma_percent_complete(total: int)
    requires
        total >= 0,
    ensures
        percent_of(total, total) == 100,
{
}

} // verus!
