//! The cached text layout that pointer positions are resolved against.
//!
//! Positions are whole numbers of the host's smallest layout unit. The
//! snapshot is advisory: it may describe an older content than the current
//! one, so whoever uses an index from it forces the index into the content.

use vstd::prelude::*;
use crate::model::{distance, nearest, nearest_among, LayoutView};

verus! {

/// The positions of a list of coordinates, as mathematical integers.
pub open spec fn positions(xs: Seq<i64>) -> Seq<int> {
    xs.map_values(|v: i64| v as int)
}

/// A measured line of text: `xs[i]` is the horizontal position of caret
/// offset `i`, counted from the left edge of the widget, whose screen bounds
/// are `left`, `top` and `bottom`.
pub struct LayoutSnapshot {
    xs: Vec<i64>,
    left: i64,
    top: i64,
    bottom: i64,
}

impl View for LayoutSnapshot {
    type V = LayoutView;

    closed spec fn view(&self) -> LayoutView {
        LayoutView {
            xs: positions(self.xs@),
            left: self.left as int,
            top: self.top as int,
            bottom: self.bottom as int,
        }
    }
}

/// Among the first `n` positions the chosen index is a valid one, no
/// position is nearer to `x`, and every position left of it is farther.
proof fn lemma_nearest_among(xs: Seq<int>, x: int, n: nat)
    requires
        0 < n <= xs.len(),
    ensures
        0 <= nearest_among(xs, x, n) < n,
        forall|i: int|
            #![trigger xs[i]]
            0 <= i < n ==> distance(xs[nearest_among(xs, x, n)], x) <= distance(xs[i], x),
        forall|i: int|
            #![trigger xs[i]]
            0 <= i < nearest_among(xs, x, n) ==> distance(xs[nearest_among(xs, x, n)], x)
                < distance(xs[i], x),
    decreases n,
{
    if n > 1 {
        lemma_nearest_among(xs, x, (n - 1) as nat);
    }
}

/// The nearest index is a valid one, no position is nearer to `x` than the
/// one it names, and every position to its left is strictly farther away:
/// of two positions at the same distance the left one is taken.
pub proof fn lemma_nearest_is_closest(xs: Seq<int>, x: int)
    requires
        xs.len() > 0,
    ensures
        0 <= nearest(xs, x) < xs.len(),
        forall|i: int|
            #![trigger xs[i]]
            0 <= i < xs.len() ==> distance(xs[nearest(xs, x)], x) <= distance(xs[i], x),
        forall|i: int|
            #![trigger xs[i]]
            0 <= i < nearest(xs, x) ==> distance(xs[nearest(xs, x)], x) < distance(xs[i], x),
{
    lemma_nearest_among(xs, x, xs.len());
}

/// On a line whose positions ascend, a pointer left of the first position
/// stands for offset 0, and a pointer right of the last position stands
/// for the last offset when the positions ascend strictly.
pub proof fn lemma_nearest_outside(xs: Seq<int>, x: int)
    requires
        xs.len() > 0,
        forall|i: int, j: int| 0 <= i <= j < xs.len() ==> xs[i] <= xs[j],
    ensures
        x <= xs[0] ==> nearest(xs, x) == 0,
        x >= xs.last() && (forall|i: int, j: int| 0 <= i < j < xs.len() ==> xs[i] < xs[j])
            ==> nearest(xs, x) == xs.len() - 1,
{
    lemma_nearest_is_closest(xs, x);
    let r = nearest(xs, x);
    if x <= xs[0] && r > 0 {
        assert(distance(xs[r], x) < distance(xs[0], x));
        assert(xs[0] <= xs[r]);
    }
    if x >= xs.last() && (forall|i: int, j: int| 0 <= i < j < xs.len() ==> xs[i] < xs[j]) && r
        < xs.len() - 1 {
        assert(distance(xs[r], x) <= distance(xs[xs.len() - 1], x));
        assert(xs[r] < xs[xs.len() - 1]);
    }
}

impl LayoutSnapshot {
    /// A snapshot of the given caret positions and widget bounds.
    pub fn new(xs: Vec<i64>, left: i64, top: i64, bottom: i64) -> (snapshot: LayoutSnapshot)
        ensures
            snapshot@ == (LayoutView {
                xs: positions(xs@),
                left: left as int,
                top: top as int,
                bottom: bottom as int,
            }),
    {
        LayoutSnapshot { xs, left, top, bottom }
    }

    /// The number of caret positions that were measured.
    pub fn len(&self) -> (n: usize)
        ensures
            n == self@.xs.len(),
    {
        self.xs.len()
    }

    /// The left edge of the widget on the screen.
    pub fn left(&self) -> (x: i64)
        ensures
            x == self@.left,
    {
        self.left
    }

    /// The top edge of the widget on the screen.
    pub fn top(&self) -> (y: i64)
        ensures
            y == self@.top,
    {
        self.top
    }

    /// The bottom edge of the widget on the screen.
    pub fn bottom(&self) -> (y: i64)
        ensures
            y == self@.bottom,
    {
        self.bottom
    }

    /// The horizontal position of caret offset `index`, counted from the
    /// left edge of the widget; that of the last measured offset when the
    /// layout is too short for `index`, and none on an empty layout.
    pub fn x_for_index(&self, index: usize) -> (x: Option<i64>)
        ensures
            match x {
                Some(v) => self@.x_at(index as int) == Some(v as int),
                None => self@.x_at(index as int) is None,
            },
    {
        let n: usize = self.xs.len();
        if n == 0 {
            None
        } else if index < n {
            Some(self.xs[index])
        } else {
            Some(self.xs[n - 1])
        }
    }

    /// The positions of both ends of the range `a..b`.
    pub fn span(&self, a: usize, b: usize) -> (ends: Option<(i64, i64)>)
        ensures
            match ends {
                Some((from, to)) => self@.span(a as int, b as int) == Some((from as int, to as int)),
                None => self@.span(a as int, b as int) is None,
            },
    {
        match (self.x_for_index(a), self.x_for_index(b)) {
            (Some(from), Some(to)) => Some((from, to)),
            _ => None,
        }
    }

    /// The caret offset whose position is nearest to the screen coordinate
    /// `x`; of two equally near ones the left one. Zero on an empty layout.
    pub fn closest_index_for_x(&self, x: i64) -> (index: usize)
        ensures
            index == nearest(self@.xs, x - self@.left),
            self@.xs.len() > 0 ==> index < self@.xs.len(),
    {
        let n: usize = self.xs.len();
        if n == 0 {
            return 0;
        }
        let target: i128 = x as i128 - self.left as i128;
        let mut best: usize = 0;
        let mut best_distance: i128 = Self::gap(self.xs[0], target);
        let mut i: usize = 1;
        while i < n
            invariant
                n == self.xs.len(),
                1 <= i <= n,
                0 <= best < i,
                target == x - self@.left,
                best == nearest_among(self@.xs, target as int, i as nat),
                best_distance == distance(self@.xs[best as int], target as int),
            decreases n - i,
        {
            let d: i128 = Self::gap(self.xs[i], target);
            if d < best_distance {
                best = i;
                best_distance = d;
            }
            i = i + 1;
        }
        best
    }

    fn gap(position: i64, target: i128) -> (d: i128)
        requires
            -0x1_0000_0000_0000_0000 <= target <= 0x1_0000_0000_0000_0000,
        ensures
            d == distance(position as int, target as int),
    {
        let p: i128 = position as i128;
        if p >= target {
            p - target
        } else {
            target - p
        }
    }
}

} // verus!
