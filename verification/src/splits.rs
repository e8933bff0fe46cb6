//! Splitting flat sequences at marker positions: the rows of a multi-line expression at its
//! line breaks, and a filled path at the starts of its subpaths.

use vstd::prelude::*;

verus! {

/// `ranges` are consecutive half-open ranges, none empty unless `n` is 0, that start at 0, end at
/// `n`, and where each range
/// after the first starts at a marked position and no marked position lies strictly inside a range.
pub open spec fn is_subpath_split(flags: Seq<bool>, ranges: Seq<(usize, usize)>) -> bool {
    let n = flags.len();
    &&& ranges.len() >= 1
    &&& ranges[0].0 == 0
    &&& ranges[ranges.len() - 1].1 == n
    &&& forall|j: int| 0 <= j < ranges.len() ==> #[trigger] ranges[j].0 <= ranges[j].1
    &&& n > 0 ==> forall|j: int| 0 <= j < ranges.len() ==> #[trigger] ranges[j].0 < ranges[j].1
    &&& forall|j: int| 0 <= j < ranges.len() - 1 ==> #[trigger] ranges[j].1 == ranges[j + 1].0
    &&& forall|j: int| 1 <= j < ranges.len() ==> 1 <= #[trigger] ranges[j].0 < n && flags[ranges[j].0 as int]
    &&& forall|j: int, i: int| #![trigger ranges[j], flags[i]] 0 <= j < ranges.len() && ranges[j].0 < i < ranges[j].1 ==> !flags[i]
}

/// The subpaths of a path to draw: a filled path is drawn subpath by subpath, each subpath
/// starting at a move-to command (so that opposite windings of separate pieces do not cancel);
/// a stroked path is drawn whole. `is_move_to[i]` tells whether command `i` is a move-to.
pub fn subpath_ranges(is_move_to: &Vec<bool>, fill: bool) -> (r: Vec<(usize, usize)>)
    ensures
        fill ==> is_subpath_split(is_move_to@, r@),
        !fill ==> r@ == seq![(0usize, is_move_to@.len() as usize)],
{
    let n = is_move_to.len();
    let mut r: Vec<(usize, usize)> = Vec::new();
    if !fill {
        r.push((0, n));
        assert(r@ =~= seq![(0usize, n)]);
        return r;
    }
    let mut start: usize = 0;
    let mut i: usize = 1;
    while i < n
        invariant
            n == is_move_to@.len(),
            1 <= i <= n || (n == 0 && i == 1),
            start < i,
            start == 0 || (1 <= start < n && is_move_to@[start as int]),
            forall|k: int| start < k < i ==> !is_move_to@[k],
            r@.len() == 0 ==> start == 0,
            r@.len() > 0 ==> 1 <= start < n && is_move_to@[start as int],
            r@.len() > 0 ==> r@[0].0 == 0 && r@[r@.len() - 1].1 == start,
            forall|j: int| 0 <= j < r@.len() ==> #[trigger] r@[j].0 < r@[j].1,
            forall|j: int| 0 <= j < r@.len() - 1 ==> #[trigger] r@[j].1 == r@[j + 1].0,
            forall|j: int|
                1 <= j < r@.len() ==> 1 <= #[trigger] r@[j].0 < n && is_move_to@[r@[j].0 as int],
            forall|j: int, k: int| #![trigger r@[j], is_move_to@[k]] 0 <= j < r@.len() && r@[j].0 < k < r@[j].1 ==> !is_move_to@[k],
        decreases n - i,
    {
        if is_move_to[i] {
            r.push((start, i));
            start = i;
        }
        i += 1;
    }
    r.push((start, n));
    r
}

/// `ranges` are the maximal runs between marked positions: consecutive half-open ranges
/// separated by exactly one marked position each, starting at 0 and ending at `n`, with no
/// marked position inside a range.
pub open spec fn is_row_split(flags: Seq<bool>, ranges: Seq<(usize, usize)>) -> bool {
    let n = flags.len();
    &&& ranges.len() >= 1
    &&& ranges[0].0 == 0
    &&& ranges[ranges.len() - 1].1 == n
    &&& forall|j: int| 0 <= j < ranges.len() ==> #[trigger] ranges[j].0 <= ranges[j].1
    &&& forall|j: int|
        0 <= j < ranges.len() - 1 ==> #[trigger] ranges[j].1 < n && flags[ranges[j].1 as int]
            && ranges[j + 1].0 == ranges[j].1 + 1
    &&& forall|j: int, i: int| #![trigger ranges[j], flags[i]] 0 <= j < ranges.len() && ranges[j].0 <= i < ranges[j].1 ==> !flags[i]
}

/// Splits an expression into rows at its line breaks (`\\`, `\newline`); the breaks themselves
/// belong to no row. `is_line_break[i]` tells whether node `i` is a line break.
pub fn split_rows(is_line_break: &Vec<bool>) -> (r: Vec<(usize, usize)>)
    ensures
        is_row_split(is_line_break@, r@),
{
    let n = is_line_break.len();
    let mut r: Vec<(usize, usize)> = Vec::new();
    let mut start: usize = 0;
    let mut i: usize = 0;
    while i < n
        invariant
            n == is_line_break@.len(),
            start <= i <= n,
            forall|k: int| start <= k < i ==> !is_line_break@[k],
            r@.len() == 0 ==> start == 0,
            r@.len() > 0 ==> r@[0].0 == 0 && r@[r@.len() - 1].1 + 1 == start && r@[r@.len()
                - 1].1 < n && is_line_break@[r@[r@.len() - 1].1 as int],
            forall|j: int| 0 <= j < r@.len() ==> #[trigger] r@[j].0 <= r@[j].1,
            forall|j: int|
                0 <= j < r@.len() - 1 ==> #[trigger] r@[j].1 < n && is_line_break@[r@[j].1 as int]
                    && r@[j + 1].0 == r@[j].1 + 1,
            forall|j: int, k: int| #![trigger r@[j], is_line_break@[k]] 0 <= j < r@.len() && r@[j].0 <= k < r@[j].1 ==> !is_line_break@[k],
        decreases n - i,
    {
        if is_line_break[i] {
            r.push((start, i));
            start = i + 1;
        }
        i += 1;
    }
    r.push((start, n));
    r
}

} // verus!
