//! Storage-side computations that do not touch the database itself: the date
//! range a monthly heatmap covers and the new display order after a habit is
//! moved up or down.

use vstd::prelude::*;
use crate::calendar::{
    days_in_month, from_ymd_opt, lemma_succ_of_pred, max_year, min_year, pred_opt, spec_pred,
    CalendarDate,
};

verus! {

/// The first and last day of `month` in `year`, when such a month exists.
pub open spec fn spec_month_range(year: int, month: int) -> Option<(CalendarDate, CalendarDate)> {
    if 1 <= month <= 12 && min_year() <= year <= max_year() {
        Some(
            (
                CalendarDate { year: year as i32, month: month as u32, day: 1 },
                CalendarDate {
                    year: year as i32,
                    month: month as u32,
                    day: days_in_month(year, month) as u32,
                },
            ),
        )
    } else {
        None
    }
}

/// Inclusive date bounds of the heatmap query for `year`/`month`: the first
/// day of the month and the day before the first day of the next month (or
/// December 31 when the next month is not representable). `None` when the
/// month number is out of range or the month cannot be represented.
pub fn month_date_range(year: i32, month: u32) -> (r: Option<(CalendarDate, CalendarDate)>)
    ensures
        r == spec_month_range(year as int, month as int),
{
    if !(1 <= month && month <= 12) {
        return None;
    }
    let start = match from_ymd_opt(year, month, 1) {
        Some(d) => d,
        None => return None,
    };
    let (next_year, next_month): (Option<i32>, u32) = if month == 12 {
        (year.checked_add(1), 1)
    } else {
        (Some(year), month + 1)
    };
    let next_month_start = match next_year {
        Some(y) => from_ymd_opt(y, next_month, 1),
        None => None,
    };
    let end = match next_month_start {
        Some(nms) => match pred_opt(nms) {
            Some(p) => p,
            None => start,
        },
        None => match from_ymd_opt(year, 12, 31) {
            Some(d) => d,
            None => start,
        },
    };
    Some((start, end))
}

/// Index of the first occurrence of `id` in `ids`.
pub open spec fn first_index_of(ids: Seq<i64>, id: i64) -> Option<int>
    decreases ids.len(),
{
    if ids.len() == 0 {
        None
    } else if ids.last() == id {
        match first_index_of(ids.drop_last(), id) {
            Some(i) => Some(i),
            None => Some(ids.len() - 1),
        }
    } else {
        first_index_of(ids.drop_last(), id)
    }
}

/// `ids` with the elements at `i` and `j` exchanged.
pub open spec fn swapped(ids: Seq<i64>, i: int, j: int) -> Seq<i64> {
    ids.update(i, ids[j]).update(j, ids[i])
}

/// New display order after moving `id` one place up (`move_up`) or down;
/// `None` when `id` is not listed or is already at that end of the list.
pub open spec fn spec_reorder(ids: Seq<i64>, id: i64, move_up: bool) -> Option<Seq<i64>> {
    match first_index_of(ids, id) {
        None => None,
        Some(i) => if move_up {
            if i > 0 { Some(swapped(ids, i, i - 1)) } else { None }
        } else {
            if i + 1 < ids.len() { Some(swapped(ids, i, i + 1)) } else { None }
        },
    }
}

proof fn lemma_first_index_of(ids: Seq<i64>, id: i64)
    ensures
        first_index_of(ids, id) matches Some(i) ==> 0 <= i < ids.len() && ids[i] == id
            && forall|k: int| 0 <= k < i ==> ids[k] != id,
        first_index_of(ids, id) is None ==> forall|k: int| 0 <= k < ids.len() ==> ids[k] != id,
    decreases ids.len(),
{
    if ids.len() > 0 {
        let init = ids.drop_last();
        lemma_first_index_of(init, id);
        if first_index_of(ids, id) is None {
            assert forall|k: int| 0 <= k < ids.len() implies ids[k] != id by {
                if k < ids.len() - 1 {
                    assert(init[k] == ids[k]);
                }
            }
        } else {
            let i = first_index_of(ids, id)->0;
            assert forall|k: int| 0 <= k < i implies ids[k] != id by {
                assert(init[k] == ids[k]);
            }
            if i < ids.len() - 1 {
                assert(init[i] == ids[i]);
            }
        }
    }
}

pub(crate) proof fn lemma_first_index_of_is(ids: Seq<i64>, id: i64, i: int)
    requires
        0 <= i < ids.len(),
        ids[i] == id,
        forall|k: int| 0 <= k < i ==> ids[k] != id,
    ensures
        first_index_of(ids, id) == Some(i),
{
    lemma_first_index_of(ids, id);
    match first_index_of(ids, id) {
        Some(j) => {
            assert(!(j < i));
            assert(!(i < j));
        },
        None => {
            assert(ids[i] != id);
        },
    }
}

/// Position of `id` in `ids`, scanning from the front.
fn position_of(ids: &Vec<i64>, id: i64) -> (r: Option<usize>)
    ensures
        r is Some <==> first_index_of(ids@, id) is Some,
        r matches Some(k) ==> first_index_of(ids@, id) == Some(k as int),
{
    proof {
        lemma_first_index_of(ids@, id);
    }
    let mut k: usize = 0;
    while k < ids.len()
        invariant
            k <= ids.len(),
            forall|m: int| 0 <= m < k ==> ids@[m] != id,
        decreases ids.len() - k,
    {
        if ids[k] == id {
            proof {
                lemma_first_index_of_is(ids@, id, k as int);
            }
            return Some(k);
        }
        k = k + 1;
    }
    None
}

/// `d` moved back by up to `n` days, stopping at the first representable day.
pub open spec fn days_back(d: CalendarDate, n: nat) -> CalendarDate
    decreases n,
{
    if n == 0 {
        d
    } else {
        match spec_pred(d) {
            Some(p) => days_back(p, (n - 1) as nat),
            None => d,
        }
    }
}

/// First day of the 30-day statistics window ending on `end` (the window is
/// `end` and the 29 days before it, cut at the first representable day).
pub fn stats_window_start(end: CalendarDate) -> (r: CalendarDate)
    requires
        end.wf(),
    ensures
        r == days_back(end, 29),
        r.wf(),
{
    let mut cur = end;
    let mut k: u32 = 0;
    while k < 29
        invariant
            k <= 29,
            cur.wf(),
            days_back(end, 29) == days_back(cur, (29 - k) as nat),
        decreases 29 - k,
    {
        proof {
            lemma_succ_of_pred(cur);
        }
        match pred_opt(cur) {
            Some(p) => {
                cur = p;
            },
            None => {
                return cur;
            },
        }
        k = k + 1;
    }
    cur
}

/// Display order after moving habit `habit_id` up or down among `ids`
/// (active habits in their current order). `None` means nothing moves: the
/// habit is not listed, or it is already first (moving up) or last (moving
/// down).
pub fn reorder_ids(ids: &Vec<i64>, habit_id: i64, move_up: bool) -> (r: Option<Vec<i64>>)
    ensures
        match spec_reorder(ids@, habit_id, move_up) {
            Some(s) => r matches Some(v) && v@ == s,
            None => r is None,
        },
{
    proof {
        lemma_first_index_of(ids@, habit_id);
    }
    let index = match position_of(ids, habit_id) {
        Some(i) => i,
        None => return None,
    };
    assert(first_index_of(ids@, habit_id) == Some(index as int));
    assert(index < ids.len());
    let other: usize = if move_up {
        if index > 0 {
            index - 1
        } else {
            return None;
        }
    } else if index + 1 < ids.len() {
        index + 1
    } else {
        return None;
    };
    let mut out = ids.clone();
    let a = ids[index];
    let b = ids[other];
    out.set(index, b);
    out.set(other, a);
    Some(out)
}

/// Moving a habit one place and then back the other way restores the
/// original order (habit ids are distinct).
pub proof fn lemma_reorder_round_trip(ids: Seq<i64>, id: i64, move_up: bool)
    requires
        ids.no_duplicates(),
    ensures
        spec_reorder(ids, id, move_up) matches Some(s) ==> spec_reorder(s, id, !move_up) == Some(ids),
{
    lemma_first_index_of(ids, id);
    if let Some(s) = spec_reorder(ids, id, move_up) {
        let i = first_index_of(ids, id)->0;
        let j = if move_up { i - 1 } else { i + 1 };
        assert(s == swapped(ids, i, j));
        assert forall|k: int| 0 <= k < j implies s[k] != id by {
            if k == i {
                assert(s[k] == ids[j]);
                assert(ids[j] != ids[i]);
            } else {
                assert(s[k] == ids[k]);
                assert(ids[k] != ids[i]);
            }
        }
        lemma_first_index_of_is(s, id, j);
        assert(swapped(s, j, i) =~= ids);
    }
}

/// A move only exchanges two neighbours: the result holds the same ids.
pub proof fn lemma_reorder_is_permutation(ids: Seq<i64>, id: i64, move_up: bool)
    ensures
        spec_reorder(ids, id, move_up) matches Some(s) ==> s.len() == ids.len()
            && s.to_multiset() == ids.to_multiset(),
{
    lemma_first_index_of(ids, id);
    if let Some(s) = spec_reorder(ids, id, move_up) {
        let i = first_index_of(ids, id)->0;
        let j = if move_up { i - 1 } else { i + 1 };
        let t = ids.update(i, ids[j]);
        vstd::seq_lib::to_multiset_update(ids, i, ids[j]);
        vstd::seq_lib::to_multiset_update(t, j, ids[i]);
        assert(s == t.update(j, ids[i]));
        assert(t[j] == ids[j]);
        let m = ids.to_multiset();
        broadcast use vstd::multiset::group_multiset_axioms;
        vstd::seq_lib::to_multiset_contains(ids, ids[i]);
        vstd::seq_lib::to_multiset_contains(ids, ids[j]);
        assert(ids.contains(ids[i]));
        assert(ids.contains(ids[j]));
        assert(m.insert(ids[j]).remove(ids[i]).insert(ids[i]).remove(ids[j]) =~= m);
    }
}

} // verus!
