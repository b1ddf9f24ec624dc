//! Cross-over detector of two series.
use vstd::prelude::*;
use crate::line::{get_vec_at, DataLine, DataLineFeed, IndicatorView};

verus! {

/// +1 when `a > b`, -1 when `a < b`, 0 when they are equal.
pub open spec fn cmp_sign(a: i64, b: i64) -> int {
    if a == b {
        0
    } else if a > b {
        1
    } else {
        -1
    }
}

/// The last nonzero comparison sign seen after scanning indices `seed..=i`,
/// starting from the sign at `seed` (which may be 0).
pub open spec fn last_sign(a: Seq<i64>, b: Seq<i64>, seed: int, i: int) -> int
    decreases i - seed,
{
    if i <= seed {
        cmp_sign(a[seed], b[seed])
    } else if cmp_sign(a[i], b[i]) == 0 {
        last_sign(a, b, seed, i - 1)
    } else {
        cmp_sign(a[i], b[i])
    }
}

/// +1 at an upward cross of `a` over `b`, -1 at a downward cross, else 0.
pub open spec fn cross_value(a: Seq<i64>, b: Seq<i64>, seed: int, i: int) -> i64 {
    let s = last_sign(a, b, seed, i - 1);
    let n = cmp_sign(a[i], b[i]);
    if n > 0 && s < 0 {
        1
    } else if n < 0 && s > 0 {
        -1i64
    } else {
        0
    }
}

/// The whole output, with the direction seeded at `first - 1`.
pub open spec fn cross_output(a: Seq<i64>, b: Seq<i64>, first: int) -> Seq<i64> {
    Seq::new(a.len(), |i: int| if i >= first { cross_value(a, b, first - 1, i) } else { 0 })
}

/// The first index at which a cross can be told: one past where both inputs are valid.
pub open spec fn cross_start(sa: nat, sb: nat) -> nat {
    (if sa >= sb { sa } else { sb }) + 1
}

/// The state after feeding two series.
pub open spec fn cross_fed(a: Seq<i64>, sa: nat, b: Seq<i64>, sb: nat) -> IndicatorView {
    IndicatorView {
        period: 0,
        start_pos: cross_start(sa, sb),
        data: cross_output(a, b, cross_start(sa, sb) as int),
    }
}

fn sign_of(a: i64, b: i64) -> (r: i8)
    ensures
        r == cmp_sign(a, b),
{
    if a == b {
        0
    } else if a > b {
        1
    } else {
        -1
    }
}

/// The output at a sample whose comparison sign is the nonzero `new_sign`,
/// given the last nonzero sign `lnzd`, and the sign to carry on.
fn calc_cross(new_sign: i8, lnzd: i8) -> (r: (i64, i8))
    requires
        new_sign == 1 || new_sign == -1,
    ensures
        r.1 == new_sign,
        r.0 == (if new_sign > 0 && lnzd < 0 {
            1
        } else if new_sign < 0 && lnzd > 0 {
            -1i64
        } else {
            0
        }),
{
    let out: i64 = if lnzd < 0 && new_sign > 0 {
        1
    } else if lnzd > 0 && new_sign < 0 {
        -1
    } else {
        0
    };
    (out, new_sign)
}

/// Detects where one series crosses another.
pub struct CrossOverIndicator {
    pub start_pos: usize,
    pub data: Vec<i64>,
}

impl View for CrossOverIndicator {
    type V = IndicatorView;

    open spec fn view(&self) -> IndicatorView {
        IndicatorView { period: 0, start_pos: self.start_pos as nat, data: self.data@ }
    }
}

impl CrossOverIndicator {
    pub fn new() -> (r: CrossOverIndicator)
        ensures
            r@ == (IndicatorView { period: 0, start_pos: 0, data: Seq::empty() }),
    {
        CrossOverIndicator { start_pos: 0, data: Vec::new() }
    }

    /// Recomputes the whole output by one left-to-right scan of both series.
    pub fn feed<DA: DataLineFeed, DB: DataLineFeed>(&mut self, data_line_a: &DA, data_line_b: &DB)
        requires
            data_line_a.values().len() == data_line_b.values().len(),
            old(self).data.len() == 0 || old(self).data.len() == data_line_a.values().len(),
            data_line_a.valid_start() < usize::MAX,
            data_line_b.valid_start() < usize::MAX,
        ensures
            final(self)@ == cross_fed(
                data_line_a.values(),
                data_line_a.valid_start(),
                data_line_b.values(),
                data_line_b.valid_start(),
            ),
    {
        let (buf_a, start_a) = data_line_a.inner();
        let (buf_b, start_b) = data_line_b.inner();
        let ghost a = buf_a@;
        let ghost b = buf_b@;
        let first = (if start_a >= start_b { start_a } else { start_b }) + 1;
        let n = buf_a.len();
        let mut out: Vec<i64> = Vec::with_capacity(n);
        let mut lnzd: i8 = 0;
        let mut i: usize = 0;
        while i < n
            invariant
                a == buf_a@,
                b == buf_b@,
                n == a.len(),
                a.len() == b.len(),
                first >= 1,
                i <= n,
                out.len() == i,
                i >= first ==> lnzd == last_sign(a, b, first - 1, i - 1),
                forall|j: int| 0 <= j < i ==> out@[j] == cross_output(a, b, first as int)[j],
            decreases n - i,
        {
            let sign = sign_of(buf_a[i], buf_b[i]);
            if i < first {
                out.push(0);
                if i + 1 == first {
                    lnzd = sign;
                }
            } else if sign == 0 {
                out.push(0);
            } else {
                let (v, next) = calc_cross(sign, lnzd);
                out.push(v);
                lnzd = next;
            }
            i = i + 1;
        }
        proof {
            assert(out@ =~= cross_output(a, b, first as int));
        }
        self.data = out;
        self.start_pos = first;
    }
}

impl Default for CrossOverIndicator {
    fn default() -> (r: CrossOverIndicator)
        ensures
            r@ == (IndicatorView { period: 0, start_pos: 0, data: Seq::empty() }),
    {
        CrossOverIndicator::new()
    }
}

impl DataLineFeed for CrossOverIndicator {
    open spec fn values(&self) -> Seq<i64> {
        self.data@
    }

    open spec fn valid_start(&self) -> nat {
        self.start_pos as nat
    }

    fn inner(&self) -> (r: (&[i64], usize)) {
        (self.data.as_slice(), self.start_pos)
    }
}

impl DataLine for CrossOverIndicator {
    open spec fn line_view(&self) -> (Seq<i64>, nat) {
        (self.data@, self.start_pos as nat)
    }

    fn at(&self, index: usize) -> (r: Option<i64>) {
        get_vec_at(self.data.as_slice(), self.start_pos, index)
    }
}

} // verus!
