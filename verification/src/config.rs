//! Run configuration: buffer geometry, iteration count, queue capacity and
//! the scalar values the stages work with.
//!
//! The configuration is injected by the surrounding program; the library
//! validates it once and every component then relies on `valid()`.

use vstd::prelude::*;

verus! {

/// Scalar bound that keeps every element value inside the range of the
/// device's 32-bit lanes, so that sums always fit the model's `i64` cells.
pub open spec fn scalar_in_range(x: i64) -> bool {
    -0x8000_0000 <= x <= 0x7fff_ffff
}

/// Configuration of one pipeline run.
pub struct Config {
    /// Number of elements in each buffer (at least 1).
    pub elem_count: usize,
    /// Number of iterations to run (at least 1).
    pub iters: usize,
    /// Capacity of the bounded pipeline queue (at least 2).
    pub capacity: usize,
    /// Sentinel pattern the Fill stage writes over the source buffer.
    pub fill_sentinel: i64,
    /// Value the Write-Init stage writes into every element.
    pub write_val: i64,
    /// Addend the Compute kernel adds to every element.
    pub addend: i64,
    /// Per-iteration value the Verify stage expects in every element.
    pub expected: Vec<i64>,
}

impl Config {
    /// The value the kernel leaves in every element of the destination
    /// buffer: the written value plus the addend.
    pub open spec fn computed_value(self) -> int {
        self.write_val + self.addend
    }

    /// A usable configuration: non-empty buffers, at least one iteration,
    /// queue capacity at least 2, one expected value per iteration, the
    /// scalars that feed arithmetic within the 32-bit lane range (so sums
    /// fit the model's `i64` cells; expected values are only compared and
    /// may be any `i64`), and an iteration count small enough that the
    /// logical tick counter (at most four terminal transitions per
    /// iteration) fits in a `u64`.
    pub open spec fn valid(self) -> bool {
        &&& self.elem_count >= 1
        &&& self.iters >= 1
        &&& self.capacity >= 2
        &&& self.expected@.len() == self.iters
        &&& scalar_in_range(self.fill_sentinel)
        &&& scalar_in_range(self.write_val)
        &&& scalar_in_range(self.addend)
        &&& self.iters <= 0x3fff_ffff_ffff_fffe
    }

    /// Checks `valid()` at run time, for callers outside the verified world.
    pub fn check(&self) -> (r: bool)
        ensures
            r == self.valid(),
    {
        self.elem_count >= 1 && self.iters >= 1 && self.capacity >= 2
            && self.expected.len() == self.iters && scalar_check(self.fill_sentinel)
            && scalar_check(self.write_val) && scalar_check(self.addend)
            && self.iters as u64 <= 0x3fff_ffff_ffff_fffe
    }

    /// Builds the configuration of a healthy run: every iteration expects
    /// exactly the value the kernel computes.
    pub fn uniform(
        elem_count: usize,
        iters: usize,
        capacity: usize,
        fill_sentinel: i64,
        write_val: i64,
        addend: i64,
    ) -> (cfg: Config)
        requires
            elem_count >= 1,
            iters >= 1,
            capacity >= 2,
            iters <= 0x3fff_ffff_ffff_fffe,
            scalar_in_range(fill_sentinel),
            scalar_in_range(write_val),
            scalar_in_range(addend),
        ensures
            cfg.valid(),
            cfg.elem_count == elem_count,
            cfg.iters == iters,
            cfg.capacity == capacity,
            cfg.fill_sentinel == fill_sentinel,
            cfg.write_val == write_val,
            cfg.addend == addend,
            forall|i: int| 0 <= i < iters ==> #[trigger] cfg.expected@[i] == cfg.computed_value(),
    {
        let computed: i64 = write_val + addend;
        let mut expected: Vec<i64> = Vec::new();
        let mut i: usize = 0;
        while i < iters
            invariant
                i <= iters,
                expected@.len() == i,
                computed == write_val + addend,
                scalar_in_range(write_val),
                scalar_in_range(addend),
                forall|j: int| 0 <= j < i ==> #[trigger] expected@[j] == write_val + addend,
            decreases iters - i,
        {
            expected.push(computed);
            i = i + 1;
        }
        Config { elem_count, iters, capacity, fill_sentinel, write_val, addend, expected }
    }
}

/// Run-time check of `scalar_in_range`.
pub fn scalar_check(x: i64) -> (r: bool)
    ensures
        r == scalar_in_range(x),
{
    -0x8000_0000 <= x && x <= 0x7fff_ffff
}

} // verus!
