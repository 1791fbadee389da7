//! Size statistics of the image optimization done when the application's
//! resources are bundled.

use vstd::prelude::*;

verus! {

/// How many files were optimized, and their total sizes before and after.
#[derive(Debug, Default, Clone, Copy)]
pub struct OptimizationStats {
    pub count: usize,
    pub original: usize,
    pub optimized: usize,
}

/// Integer division rounded toward zero, as Rust's `/` on signed integers.
pub open spec fn div_toward_zero(a: int, b: int) -> int {
    if a >= 0 {
        a / b
    } else {
        -((-a) / b)
    }
}

/// The size saved, in percent of the original size (rounded toward zero;
/// negative when the files grew, 0 when nothing was measured).
pub open spec fn reduction_percent_spec(original: int, optimized: int) -> int {
    if original == 0 {
        0
    } else {
        div_toward_zero((original - optimized) * 100, original)
    }
}

impl OptimizationStats {
    /// Counts one more file of the given sizes.
    pub fn add(&mut self, original: usize, optimized: usize)
        requires
            old(self).count < usize::MAX,
            old(self).original + original <= usize::MAX,
            old(self).optimized + optimized <= usize::MAX,
        ensures
            final(self).count == old(self).count + 1,
            final(self).original == old(self).original + original,
            final(self).optimized == old(self).optimized + optimized,
    {
        self.count = self.count + 1;
        self.original = self.original + original;
        self.optimized = self.optimized + optimized;
    }

    /// The size saved, in percent (see `reduction_percent_spec`).
    pub fn reduction_percent(&self) -> (r: i64)
        requires
            self.original <= i64::MAX,
            self.optimized <= i64::MAX,
            (self.original - self.optimized) * 100 <= i64::MAX,
            (self.optimized - self.original) * 100 <= i64::MAX,
        ensures
            r == reduction_percent_spec(self.original as int, self.optimized as int),
    {
        if self.original == 0 {
            return 0;
        }
        let saved: i64 = self.original as i64 - self.optimized as i64;
        let scaled: i64 = saved * 100;
        let total: i64 = self.original as i64;
        if scaled >= 0 {
            scaled / total
        } else {
            let q: i64 = (-scaled) / total;
            -q
        }
    }
}

} // verus!
