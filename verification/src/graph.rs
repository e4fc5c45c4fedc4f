//! The integer layout of the pie chart: the total the slices share, and
//! where and in which colour each legend line goes. The slice angles are
//! floating point and drawn elsewhere.
use vstd::prelude::*;
use crate::text::{nat_decimal, push_u64};

verus! {

/// The height of the chart's canvas; the legend lines share it.
pub const CANVAS_HEIGHT: usize = 50;

/// The sum of the slice sizes.
pub open spec fn slices_total(items: Seq<(u32, (u8, u8, u8), &str)>) -> int
    decreases items.len(),
{
    if items.len() == 0 {
        0
    } else {
        slices_total(items.drop_last()) + items.last().0
    }
}

/// The CSS colour `rgb(r,g,b)`.
pub open spec fn rgb_text(r: u8, g: u8, b: u8) -> Seq<char> {
    "rgb("@ + nat_decimal(r as nat) + ","@ + nat_decimal(g as nat) + ","@ + nat_decimal(b as nat) + ")"@
}

/// The CSS colour `rgb(r,g,b)` of a slice.
pub fn rgb(r: u8, g: u8, b: u8) -> (s: String)
    ensures
        s@ == rgb_text(r, g, b),
{
    let mut s = "rgb(".to_string();
    push_u64(&mut s, r as u64);
    s.append(",");
    push_u64(&mut s, g as u64);
    s.append(",");
    push_u64(&mut s, b as u64);
    s.append(")");
    assert(s@ =~= rgb_text(r, g, b));
    s
}

/// One legend line: its baseline and its colour.
pub struct LegendEntry {
    pub y: usize,
    pub colour: String,
}

/// The chart's integer layout.
pub struct PieLayout {
    /// The sum of the slice sizes.
    pub total: u32,
    /// The height of one legend line, which is also its font size.
    pub text_height: usize,
    /// One line per slice, in order.
    pub legend: Vec<LegendEntry>,
}

/// The layout of a pie chart of `items` (size, colour, label): the sizes'
/// total, lines of equal height splitting the canvas, and line `i` at
/// `height * (i + 1)` in its slice's colour.
pub fn pie_layout(items: &[(u32, (u8, u8, u8), &str)]) -> (p: PieLayout)
    requires
        items@.len() > 0,
        slices_total(items@) <= u32::MAX,
    ensures
        p.total == slices_total(items@),
        p.text_height == (CANVAS_HEIGHT as nat) / items@.len(),
        p.legend@.len() == items@.len(),
        forall|i: int| 0 <= i < items@.len() ==> {
            &&& (#[trigger] p.legend@[i]).y == p.text_height * i + p.text_height
            &&& p.legend@[i].y <= CANVAS_HEIGHT
            &&& p.legend@[i].colour@ == rgb_text(items@[i].1.0, items@[i].1.1, items@[i].1.2)
        },
{
    let n = items.len();
    let mut total: u32 = 0;
    let mut i: usize = 0;
    while i < n
        invariant
            n == items@.len(),
            i <= n,
            total == slices_total(items@.subrange(0, i as int)),
            slices_total(items@) <= u32::MAX,
        decreases n - i,
    {
        proof {
            lemma_total_prefix_grows(items@, (i + 1) as int);
            assert(items@.subrange(0, i + 1).drop_last() =~= items@.subrange(0, i as int));
        }
        total = items[i].0 + total;
        i = i + 1;
    }
    assert(items@.subrange(0, n as int) =~= items@);
    let h: usize = CANVAS_HEIGHT / n;
    let mut legend: Vec<LegendEntry> = Vec::new();
    let mut j: usize = 0;
    while j < n
        invariant
            n == items@.len(),
            n > 0,
            h == CANVAS_HEIGHT / n,
            j <= n,
            legend@.len() == j,
            forall|k: int| 0 <= k < j ==> {
                &&& (#[trigger] legend@[k]).y == h * k + h
                &&& legend@[k].y <= CANVAS_HEIGHT
                &&& legend@[k].colour@ == rgb_text(items@[k].1.0, items@[k].1.1, items@[k].1.2)
            },
        decreases n - j,
    {
        assert(h * j + h <= CANVAS_HEIGHT) by (nonlinear_arith)
            requires
                h == CANVAS_HEIGHT / n,
                j < n,
                n > 0,
        ;
        let (r, g, b) = items[j].1;
        legend.push(LegendEntry { y: h * j + h, colour: rgb(r, g, b) });
        j = j + 1;
    }
    PieLayout { total, text_height: h, legend }
}

/// A prefix's total is at most the whole total.
proof fn lemma_total_prefix_grows(items: Seq<(u32, (u8, u8, u8), &str)>, k: int)
    requires
        0 <= k <= items.len(),
    ensures
        slices_total(items.subrange(0, k)) <= slices_total(items),
    decreases items.len() - k,
{
    if k < items.len() {
        lemma_total_prefix_grows(items, k + 1);
        assert(items.subrange(0, k + 1).drop_last() =~= items.subrange(0, k));
    } else {
        assert(items.subrange(0, k) =~= items);
    }
}

} // verus!
