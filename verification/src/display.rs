//! What a display of the jobs shows: which jobs, in which order, and how
//! long their progress bars are. Drawing is left to the caller.

use crate::archive::{percent, percent_spec};
use crate::job::{JobState, JobStateView};
use crate::text::{chars_of, substring};
use vstd::prelude::*;

verus! {

/// The rank of a state: jobs of higher rank are shown first.
pub open spec fn rank_of(s: JobStateView) -> u16 {
    match s {
        JobStateView::Error { .. } => 0,
        JobStateView::Wait => 1,
        JobStateView::Downloading { .. } => 2,
        JobStateView::Unzipping { .. } => 3,
        JobStateView::Parsing { .. } => 4,
        JobStateView::Done => 5,
    }
}

/// How far a state has come within its stage, in percent; 0 for a state
/// without progress.
pub open spec fn progress_of(s: JobStateView) -> u8 {
    match s {
        JobStateView::Downloading { done, total } => percent_spec(done, total),
        JobStateView::Unzipping { percent } => percent,
        JobStateView::Parsing { percent, .. } => percent,
        _ => 0,
    }
}

/// The priority of a state on the display: the later stage first, and
/// within a stage the job that has come further.
pub open spec fn priority_of(s: JobStateView) -> u16 {
    (rank_of(s) * 256 + progress_of(s)) as u16
}

/// Whether a job in this state is shown: waiting jobs and done jobs are not.
pub open spec fn is_shown(s: JobStateView) -> bool {
    !(s is Wait) && !(s is Done)
}

/// What the states of a sequence hold, in order.
pub open spec fn states_view(states: Seq<JobState>) -> Seq<JobStateView> {
    Seq::new(states.len(), |i: int| states[i]@)
}

/// The indexes of the states that are shown, in the order of the list.
pub open spec fn shown_indexes(states: Seq<JobStateView>) -> Seq<usize>
    decreases states.len(),
{
    if states.len() == 0 {
        Seq::empty()
    } else if is_shown(states.last()) {
        shown_indexes(states.drop_last()).push((states.len() - 1) as usize)
    } else {
        shown_indexes(states.drop_last())
    }
}

/// The indexes of the jobs on a display of `rows` rows: the first shown
/// ones, as many as fit beside the line of totals.
pub open spec fn visible_indexes(states: Seq<JobStateView>, rows: u16) -> Seq<usize> {
    let all = shown_indexes(states);
    let limit = if rows == 0 {
        0
    } else {
        rows - 1
    };
    if limit < all.len() {
        all.take(limit)
    } else {
        all
    }
}

/// The number of states that are `Done`.
pub open spec fn done_count_spec(states: Seq<JobStateView>) -> nat
    decreases states.len(),
{
    if states.len() == 0 {
        0
    } else {
        done_count_spec(states.drop_last()) + if states.last() is Done {
            1nat
        } else {
            0nat
        }
    }
}

/// The number of states that are `Error`.
pub open spec fn failed_count_spec(states: Seq<JobStateView>) -> nat
    decreases states.len(),
{
    if states.len() == 0 {
        0
    } else {
        failed_count_spec(states.drop_last()) + if states.last() is Error {
            1nat
        } else {
            0nat
        }
    }
}

/// The width of the progress bars: what the line leaves beside the longest
/// name and 30 more columns, and 50 at most.
pub open spec fn bar_width_spec(columns: u16, longest_name: usize) -> usize {
    let left = if columns <= longest_name {
        0
    } else {
        columns - longest_name
    };
    let rest = if left <= 30 {
        0
    } else {
        left - 30
    };
    if rest < 50 {
        rest as usize
    } else {
        50
    }
}

/// The part of a bar of `width` columns that is filled at `percent`.
pub open spec fn bar_fill_spec(width: usize, percent: u8) -> usize {
    let p = if percent > 100 {
        100
    } else {
        percent as int
    };
    ((width * p) / 100) as usize
}

/// The indexes of the shown states are indexes of the list, in rising
/// order.
pub proof fn lemma_shown_indexes(states: Seq<JobStateView>)
    requires
        states.len() <= usize::MAX,
    ensures
        shown_indexes(states).len() <= states.len(),
        forall|i: int|
            0 <= i < shown_indexes(states).len() ==> (#[trigger] shown_indexes(states)[i])
                < states.len() && is_shown(states[shown_indexes(states)[i] as int]),
        forall|i: int, j: int|
            0 <= i < j < shown_indexes(states).len() ==> (#[trigger] shown_indexes(states)[i]) < (
            #[trigger] shown_indexes(states)[j]),
    decreases states.len(),
{
    if states.len() > 0 {
        lemma_shown_indexes(states.drop_last());
        let before = shown_indexes(states.drop_last());
        let all = shown_indexes(states);
        let last = (states.len() - 1) as usize;
        assert forall|i: int| 0 <= i < all.len() implies (#[trigger] all[i]) < states.len()
            && is_shown(states[all[i] as int]) by {
            if i < before.len() {
                assert(all[i] == before[i]);
                assert(states.drop_last()[before[i] as int] == states[before[i] as int]);
            } else {
                assert(all[i] == last);
            }
        }
        assert forall|i: int, j: int| 0 <= i < j < all.len() implies (#[trigger] all[i]) < (
        #[trigger] all[j]) by {
            assert(all[i] == before[i]);
            if j < before.len() {
                assert(all[j] == before[j]);
            } else {
                assert(all[j] == last);
                assert(before[i] < states.drop_last().len());
            }
        }
    }
}

/// The rank of a state.
pub fn display_rank(state: &JobState) -> (r: u16)
    ensures
        r == rank_of(state@),
{
    match state {
        JobState::Error { .. } => 0,
        JobState::Wait => 1,
        JobState::Downloading { .. } => 2,
        JobState::Unzipping { .. } => 3,
        JobState::Parsing { .. } => 4,
        JobState::Done => 5,
    }
}

/// How far a state has come within its stage, in percent.
pub fn display_progress(state: &JobState) -> (r: u8)
    ensures
        r == progress_of(state@),
{
    match state {
        JobState::Downloading { done, total } => percent(*done, *total),
        JobState::Unzipping { percent } => *percent,
        JobState::Parsing { percent, .. } => *percent,
        _ => 0,
    }
}

/// The priority of a state on the display.
pub fn display_priority(state: &JobState) -> (r: u16)
    ensures
        r == priority_of(state@),
{
    display_rank(state) * 256 + (display_progress(state) as u16)
}

/// Whether a job in state `a` is shown before a job in state `b`.
pub fn shows_before(a: &JobState, b: &JobState) -> (r: bool)
    ensures
        r == (priority_of(a@) > priority_of(b@)),
{
    display_priority(a) > display_priority(b)
}

/// The width of the progress bars on a line of `columns` columns, where the
/// longest name takes `longest_name` of them.
pub fn progress_bar_width(columns: u16, longest_name: usize) -> (w: usize)
    ensures
        w == bar_width_spec(columns, longest_name),
        w <= 50,
{
    let c: usize = columns as usize;
    let left: usize = if c <= longest_name {
        0
    } else {
        c - longest_name
    };
    let rest: usize = if left <= 30 {
        0
    } else {
        left - 30
    };
    if rest < 50 {
        rest
    } else {
        50
    }
}

/// The part of a bar of `width` columns that is filled at `percent`.
pub fn bar_fill(width: usize, percent: u8) -> (n: usize)
    ensures
        n == bar_fill_spec(width, percent),
        n <= width,
{
    let p: u128 = if percent > 100 {
        100
    } else {
        percent as u128
    };
    assert(width * p <= 0xffff_ffff_ffff_ffff * 100) by (nonlinear_arith)
        requires
            0 <= width <= 0xffff_ffff_ffff_ffff,
            0 <= p <= 100,
    ;
    let scaled: u128 = (width as u128) * p;
    let q: u128 = scaled / 100;
    assert(q <= width) by (nonlinear_arith)
        requires
            q == (width * p) / 100,
            0 <= p <= 100,
    ;
    q as usize
}

/// The number of jobs that are done.
pub fn done_count(states: &Vec<JobState>) -> (n: usize)
    ensures
        n == done_count_spec(states_view(states@)),
        n <= states.len(),
{
    let ghost all = states_view(states@);
    let mut n: usize = 0;
    let mut i: usize = 0;
    assert(all.take(0) == Seq::<JobStateView>::empty());
    while i < states.len()
        invariant
            i <= states.len(),
            all == states_view(states@),
            n <= i,
            n == done_count_spec(all.take(i as int)),
        decreases states.len() - i,
    {
        assert(all.take(i + 1).drop_last() == all.take(i as int));
        assert(all.take(i + 1).last() == states@[i as int]@);
        match &states[i] {
            JobState::Done => {
                n = n + 1;
            },
            _ => {},
        }
        i += 1;
    }
    assert(all.take(states.len() as int) == all);
    n
}

/// The number of jobs that have failed.
pub fn failed_count(states: &Vec<JobState>) -> (n: usize)
    ensures
        n == failed_count_spec(states_view(states@)),
        n <= states.len(),
{
    let ghost all = states_view(states@);
    let mut n: usize = 0;
    let mut i: usize = 0;
    assert(all.take(0) == Seq::<JobStateView>::empty());
    while i < states.len()
        invariant
            i <= states.len(),
            all == states_view(states@),
            n <= i,
            n == failed_count_spec(all.take(i as int)),
        decreases states.len() - i,
    {
        assert(all.take(i + 1).drop_last() == all.take(i as int));
        assert(all.take(i + 1).last() == states@[i as int]@);
        match &states[i] {
            JobState::Error { .. } => {
                n = n + 1;
            },
            _ => {},
        }
        i += 1;
    }
    assert(all.take(states.len() as int) == all);
    n
}

/// The indexes of the jobs on a display of `rows` rows, in the order of the
/// list.
pub fn visible_jobs(states: &Vec<JobState>, rows: u16) -> (r: Vec<usize>)
    ensures
        r@ == visible_indexes(states_view(states@), rows),
{
    let ghost all = states_view(states@);
    let mut r: Vec<usize> = Vec::new();
    let mut i: usize = 0;
    assert(all.take(0) == Seq::<JobStateView>::empty());
    while i < states.len()
        invariant
            i <= states.len(),
            all == states_view(states@),
            r@ == shown_indexes(all.take(i as int)),
        decreases states.len() - i,
    {
        assert(all.take(i + 1).drop_last() == all.take(i as int));
        assert(all.take(i + 1).last() == states@[i as int]@);
        let shown = match &states[i] {
            JobState::Wait => false,
            JobState::Done => false,
            _ => true,
        };
        if shown {
            r.push(i);
        }
        i += 1;
    }
    assert(all.take(states.len() as int) == all);
    let limit: usize = if rows == 0 {
        0
    } else {
        (rows - 1) as usize
    };
    if limit < r.len() {
        r.truncate(limit);
    }
    r
}

/// An order of the places `0..keys.len()` in which the keys fall: every
/// place once, a place with a greater key before one with a smaller.
pub fn order_by_priority(keys: &Vec<u16>) -> (order: Vec<usize>)
    ensures
        order.len() == keys.len(),
        forall|i: int| 0 <= i < order.len() ==> (#[trigger] order[i]) < keys.len(),
        forall|i: int, j: int|
            0 <= i < j < order.len() ==> (#[trigger] order[i]) != (#[trigger] order[j]),
        forall|i: int, j: int|
            0 <= i < j < order.len() ==> keys[(#[trigger] order[i]) as int] >= keys[(
            #[trigger] order[j]) as int],
{
    let mut order: Vec<usize> = Vec::new();
    let mut k: usize = 0;
    while k < keys.len()
        invariant
            k <= keys.len(),
            order.len() == k,
            forall|i: int| 0 <= i < order.len() ==> (#[trigger] order[i]) < k,
            forall|i: int, j: int|
                0 <= i < j < order.len() ==> (#[trigger] order[i]) != (#[trigger] order[j]),
            forall|i: int, j: int|
                0 <= i < j < order.len() ==> keys[(#[trigger] order[i]) as int] >= keys[(
                #[trigger] order[j]) as int],
        decreases keys.len() - k,
    {
        let mut p: usize = 0;
        while p < order.len() && keys[order[p]] >= keys[k]
            invariant
                p <= order.len(),
                order.len() == k,
                k < keys.len(),
                forall|i: int| 0 <= i < order.len() ==> (#[trigger] order[i]) < k,
                forall|i: int| 0 <= i < p ==> keys[(#[trigger] order[i]) as int] >= keys[k as int],
            decreases order.len() - p,
        {
            p += 1;
        }
        let ghost before = order@;
        order.insert(p, k);
        assert forall|i: int, j: int| 0 <= i < j < order.len() implies keys[(
        #[trigger] order[i]) as int] >= keys[(#[trigger] order[j]) as int] by {
            if j < p {
                assert(order[i] == before[i] && order[j] == before[j]);
            } else if j == p {
                assert(order[i] == before[i]);
            } else if i < p {
                assert(order[i] == before[i] && order[j] == before[j - 1]);
                if j - 1 > p {
                    assert(keys[before[p as int] as int] >= keys[before[j - 1] as int]);
                }
            } else if i == p {
                assert(order[j] == before[j - 1]);
                if j - 1 > p {
                    assert(keys[before[p as int] as int] >= keys[before[j - 1] as int]);
                }
            } else {
                assert(order[i] == before[i - 1] && order[j] == before[j - 1]);
            }
        }
        assert forall|i: int, j: int| 0 <= i < j < order.len() implies (#[trigger] order[i]) != (
        #[trigger] order[j]) by {
            if i != p && j != p {
                let a = if i < p {
                    i
                } else {
                    i - 1
                };
                let b = if j < p {
                    j
                } else {
                    j - 1
                };
                assert(order[i] == before[a] && order[j] == before[b]);
            } else if i == p {
                assert(order[j] == before[j - 1]);
            } else {
                assert(order[i] == before[i]);
            }
        }
        assert forall|i: int| 0 <= i < order.len() implies (#[trigger] order[i]) < k + 1 by {
            if i < p {
                assert(order[i] == before[i]);
            } else if i > p {
                assert(order[i] == before[i - 1]);
            }
        }
        k += 1;
    }
    order
}

/// The indexes of the jobs on a display of `rows` rows, in the order in
/// which they are shown: every visible job once, a job of greater priority
/// before one of smaller.
pub fn display_order(states: &Vec<JobState>, rows: u16) -> (r: Vec<usize>)
    ensures
        r.len() == visible_indexes(states_view(states@), rows).len(),
        forall|i: int|
            0 <= i < r.len() ==> visible_indexes(states_view(states@), rows).contains(
                #[trigger] r[i],
            ) && r[i] < states.len(),
        forall|i: int, j: int| 0 <= i < j < r.len() ==> (#[trigger] r[i]) != (#[trigger] r[j]),
        forall|i: int, j: int|
            0 <= i < j < r.len() ==> priority_of(states[(#[trigger] r[i]) as int]@) >= priority_of(
                states[(#[trigger] r[j]) as int]@,
            ),
{
    let visible = visible_jobs(states, rows);
    let ghost all = states_view(states@);
    proof {
        assert(all.len() == states.len());
        lemma_shown_indexes(all);
    }
    let mut keys: Vec<u16> = Vec::new();
    let mut i: usize = 0;
    while i < visible.len()
        invariant
            i <= visible.len(),
            keys.len() == i,
            all == states_view(states@),
            visible@ == visible_indexes(all, rows),
            forall|j: int| 0 <= j < visible.len() ==> (#[trigger] visible[j]) < states.len(),
            forall|j: int|
                0 <= j < i ==> (#[trigger] keys[j]) == priority_of(states[visible[j] as int]@),
        decreases visible.len() - i,
    {
        keys.push(display_priority(&states[visible[i]]));
        i += 1;
    }
    let order = order_by_priority(&keys);
    let mut r: Vec<usize> = Vec::new();
    let mut n: usize = 0;
    while n < order.len()
        invariant
            n <= order.len(),
            r.len() == n,
            order.len() == visible.len(),
            forall|j: int| 0 <= j < order.len() ==> (#[trigger] order[j]) < visible.len(),
            forall|j: int| 0 <= j < n ==> (#[trigger] r[j]) == visible[order[j] as int],
        decreases order.len() - n,
    {
        r.push(visible[order[n]]);
        n += 1;
    }
    assert forall|a: int, b: int| 0 <= a < b < r.len() implies (#[trigger] r[a]) != (
    #[trigger] r[b]) by {
        let x = order[a] as int;
        let y = order[b] as int;
        assert(x != y);
        if x < y {
            assert(visible[x] < visible[y]);
        } else {
            assert(visible[y] < visible[x]);
        }
    }
    assert forall|a: int, b: int| 0 <= a < b < r.len() implies priority_of(
        states[(#[trigger] r[a]) as int]@,
    ) >= priority_of(states[(#[trigger] r[b]) as int]@) by {
        assert(keys[order[a] as int] >= keys[order[b] as int]);
    }
    assert forall|a: int| 0 <= a < r.len() implies visible_indexes(all, rows).contains(
        #[trigger] r[a],
    ) && r[a] < states.len() by {
        assert(visible@[order[a] as int] == r[a]);
    }
    r
}

/// The beginning of a message that fits into `max` columns: the whole
/// message where it is no longer than that.
pub fn error_label(message: &str, max: usize) -> (r: String)
    ensures
        r@ == if max < message@.len() {
            message@.take(max as int)
        } else {
            message@
        },
{
    let v = chars_of(message);
    let end: usize = if max < v.len() {
        max
    } else {
        v.len()
    };
    assert(v@.subrange(0, end as int) == v@.take(end as int));
    assert(v@.take(v.len() as int) == v@);
    substring(&v, 0, end)
}

} // verus!
