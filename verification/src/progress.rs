//! Progress accounting for one file's download.
//!
//! Progress is reported as an integer number of permille (thousandths), so
//! the fraction is exact and free of rounding surprises: it is 0 while the
//! total size is unknown, never exceeds 1000, and reaches 1000 exactly when
//! a download with a known total has received all of its bytes.

use vstd::prelude::*;

verus! {

use vstd::arithmetic::div_mod::{lemma_div_is_ordered, lemma_div_pos_is_pos, lemma_fundamental_div_mod};
use vstd::arithmetic::mul::{lemma_mul_inequality, lemma_mul_strict_inequality};

/// Progress of a download in permille, saturated at 1000. Zero while the
/// total is unknown (reported as 0).
pub open spec fn permille_of(downloaded: u64, total: u64) -> int {
    if total == 0 {
        0
    } else if downloaded >= total {
        1000
    } else {
        (downloaded as int * 1000) / (total as int)
    }
}

/// The fraction always lies in [0, 1000].
pub proof fn lemma_permille_bounds(downloaded: u64, total: u64)
    ensures
        0 <= permille_of(downloaded, total) <= 1000,
{
    if total > 0 && downloaded < total {
        let d = downloaded as int;
        let t = total as int;
        lemma_div_pos_is_pos(d * 1000, t);
        lemma_permille_partial_lt_1000(downloaded, total);
    }
}

/// While a download with a known total is incomplete, its fraction stays
/// strictly below 1000.
proof fn lemma_permille_partial_lt_1000(downloaded: u64, total: u64)
    requires
        0 < total,
        downloaded < total,
    ensures
        (downloaded as int * 1000) / (total as int) < 1000,
{
    let d = downloaded as int;
    let t = total as int;
    let q = (d * 1000) / t;
    lemma_fundamental_div_mod(d * 1000, t);
    lemma_mul_strict_inequality(d, t, 1000);
    if q >= 1000 {
        lemma_mul_inequality(1000, q, t);
        assert(d * 1000 == t * q + (d * 1000) % t);
        assert(false);
    }
}

/// More bytes never lower the fraction: within one download (fixed total),
/// progress is monotonically non-decreasing in the byte count.
pub proof fn lemma_permille_monotone(d1: u64, d2: u64, total: u64)
    requires
        d1 <= d2,
    ensures
        permille_of(d1, total) <= permille_of(d2, total),
{
    if total > 0 && d2 < total {
        lemma_mul_inequality(d1 as int, d2 as int, 1000);
        lemma_div_is_ordered(d1 as int * 1000, d2 as int * 1000, total as int);
    } else if total > 0 && d1 < total && d2 >= total {
        lemma_permille_partial_lt_1000(d1, total);
    }
}

/// The fraction is exactly 1000 precisely when the total is known and every
/// byte of it has arrived.
pub proof fn lemma_permille_complete(downloaded: u64, total: u64)
    ensures
        permille_of(downloaded, total) == 1000 <==> (total > 0 && downloaded >= total),
{
    if total > 0 && downloaded < total {
        lemma_permille_partial_lt_1000(downloaded, total);
    }
}

/// Byte counts of one in-flight download: how much has arrived, and the
/// total the server announced (0 when it announced none).
pub struct ProgressState {
    /// Bytes received so far.
    pub downloaded: u64,
    /// Expected total; 0 means unknown.
    pub total: u64,
}

impl ProgressState {
    /// Fresh accounting for a download whose announced total is `total`.
    pub fn begin(total: u64) -> (r: Self)
        ensures
            r.downloaded == 0,
            r.total == total,
    {
        ProgressState { downloaded: 0, total }
    }

    /// Records one received chunk. The byte count grows by the chunk length,
    /// saturating instead of overflowing; the total never changes.
    pub fn on_chunk(&mut self, len: usize)
        ensures
            final(self).total == old(self).total,
            final(self).downloaded == if old(self).downloaded + len <= u64::MAX {
                old(self).downloaded + len
            } else {
                u64::MAX as int
            },
            final(self).downloaded >= old(self).downloaded,
    {
        if (len as u64) > u64::MAX - self.downloaded {
            self.downloaded = u64::MAX;
        } else {
            self.downloaded = self.downloaded + (len as u64);
        }
    }

    /// Current fraction in permille.
    pub fn permille(&self) -> (r: u16)
        ensures
            r as int == permille_of(self.downloaded, self.total),
            r <= 1000,
    {
        if self.total == 0 {
            0
        } else if self.downloaded >= self.total {
            1000
        } else {
            let num: u128 = (self.downloaded as u128) * 1000;
            let q: u128 = num / (self.total as u128);
            proof {
                lemma_div_pos_is_pos(self.downloaded as int * 1000, self.total as int);
                lemma_permille_partial_lt_1000(self.downloaded, self.total);
            }
            q as u16
        }
    }
}

} // verus!
