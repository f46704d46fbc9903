//! The CPU- and device-side work bodies of the four stages, modelled over
//! plain buffers.
//!
//! The real system runs these against mapped views of device memory; the
//! model runs them over `Vec<i64>` cells.  Each body carries the exact
//! contract the driver and the verification argument rely on.

use vstd::prelude::*;
use crate::errors::PipelineError;

verus! {

/// True when every element of `s` equals `v`.
pub open spec fn all_elems(s: Seq<i64>, v: i64) -> bool {
    forall|j: int| 0 <= j < s.len() ==> s[j] == v
}

/// Allocates a zeroed buffer of `n` elements.
pub fn zero_buffer(n: usize) -> (buf: Vec<i64>)
    ensures
        buf@.len() == n,
        all_elems(buf@, 0),
{
    let mut buf: Vec<i64> = Vec::new();
    let mut i: usize = 0;
    while i < n
        invariant
            i <= n,
            buf@.len() == i,
            all_elems(buf@, 0),
        decreases n - i,
    {
        buf.push(0);
        i = i + 1;
    }
    buf
}

/// The Fill stage's device-side work: overwrite every element of `buf`
/// with the sentinel pattern.
pub fn fill_buffer(buf: &mut Vec<i64>, sentinel: i64)
    ensures
        final(buf)@.len() == old(buf)@.len(),
        all_elems(final(buf)@, sentinel),
{
    let n = buf.len();
    let mut i: usize = 0;
    while i < n
        invariant
            i <= n,
            buf@.len() == n,
            forall|j: int| 0 <= j < i ==> buf@[j] == sentinel,
        decreases n - i,
    {
        buf[i] = sentinel;
        i = i + 1;
    }
}

/// The Write-Init stage's CPU-side work, run once the mapped view is
/// available: write `val` into every element.
pub fn write_init_values(buf: &mut Vec<i64>, val: i64)
    ensures
        final(buf)@.len() == old(buf)@.len(),
        all_elems(final(buf)@, val),
{
    let n = buf.len();
    let mut i: usize = 0;
    while i < n
        invariant
            i <= n,
            buf@.len() == n,
            forall|j: int| 0 <= j < i ==> buf@[j] == val,
        decreases n - i,
    {
        buf[i] = val;
        i = i + 1;
    }
}

/// The Compute stage's kernel, modelled elementwise: for every index `j`,
/// `dst[j]` becomes `src[j] + addend`.
pub fn kernel_add_values(src: &Vec<i64>, addend: i64, dst: &mut Vec<i64>)
    requires
        src@.len() == old(dst)@.len(),
        forall|j: int|
            0 <= j < src@.len() ==> i64::MIN <= #[trigger] src@[j] + addend <= i64::MAX,
    ensures
        final(dst)@.len() == old(dst)@.len(),
        forall|j: int| 0 <= j < src@.len() ==> #[trigger] final(dst)@[j] == src@[j] + addend,
{
    let n = src.len();
    let mut i: usize = 0;
    while i < n
        invariant
            i <= n,
            src@.len() == n,
            dst@.len() == n,
            forall|j: int|
                0 <= j < n ==> i64::MIN <= #[trigger] src@[j] + addend <= i64::MAX,
            forall|j: int| 0 <= j < i ==> #[trigger] dst@[j] == src@[j] + addend,
        decreases n - i,
    {
        dst[i] = src[i] + addend;
        i = i + 1;
    }
}

/// The Verify stage's CPU-side work, run once the mapped view is available:
/// scan every element against `expected`.  The first element that differs
/// yields a `Mismatch` carrying this iteration's index; otherwise the scan
/// resolves to the element count.
pub fn verify_values(buf: &Vec<i64>, expected: i64, iteration: usize) -> (r: Result<
    usize,
    PipelineError,
>)
    ensures
        all_elems(buf@, expected) ==> r == Ok::<usize, PipelineError>(buf.len()),
        !all_elems(buf@, expected) ==> (r matches Err(e) && e matches PipelineError::Mismatch {
            iteration: it,
            index,
            expected: exp,
            actual,
        } && it == iteration && exp == expected && 0 <= index < buf@.len() && actual == buf@[
            index as int
        ] && actual != expected && (forall|j: int| 0 <= j < index ==> buf@[j] == expected)),
{
    let n = buf.len();
    let mut i: usize = 0;
    while i < n
        invariant
            i <= n,
            buf@.len() == n,
            forall|j: int| 0 <= j < i ==> buf@[j] == expected,
        decreases n - i,
    {
        if buf[i] != expected {
            return Err(
                PipelineError::Mismatch {
                    iteration,
                    index: i,
                    expected,
                    actual: buf[i],
                },
            );
        }
        i = i + 1;
    }
    Ok(n)
}

} // verus!
