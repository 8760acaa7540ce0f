//! The rank-preserving join: rows that the store returned in its own order
//! are put back into the order in which the search service ranked their ids.

use vstd::prelude::*;

verus! {

/// Something that is known by a stable integer id.
pub trait GetId {
    /// The id, as contracts speak of it.
    spec fn id(&self) -> i32;

    /// The id.
    fn get_id(&self) -> (id: i32)
        ensures
            id == self.id(),
    ;
}

/// The rows of `rows` that carry `id`, in the order in which they stand.
pub open spec fn rows_with_id<T: GetId>(rows: Seq<T>, id: i32) -> Seq<T>
    decreases rows.len(),
{
    if rows.len() == 0 {
        Seq::empty()
    } else if rows.last().id() == id {
        rows_with_id(rows.drop_last(), id).push(rows.last())
    } else {
        rows_with_id(rows.drop_last(), id)
    }
}

/// The rows of `rows` in the rank that `ids` gives them: for each id in
/// turn, at its first mention, the rows that carry it. A row whose id is
/// not listed is left out; an id without a row contributes nothing.
pub open spec fn in_rank_order<T: GetId>(ids: Seq<i32>, rows: Seq<T>) -> Seq<T>
    decreases ids.len(),
{
    if ids.len() == 0 {
        Seq::empty()
    } else if ids.drop_last().contains(ids.last()) {
        in_rank_order(ids.drop_last(), rows)
    } else {
        in_rank_order(ids.drop_last(), rows) + rows_with_id(rows, ids.last())
    }
}

/// The place of the first mention of `id` in `ids`, or the length of
/// `ids` when it is not mentioned.
pub open spec fn rank_of(ids: Seq<i32>, id: i32) -> int
    decreases ids.len(),
{
    if ids.len() == 0 {
        0
    } else if ids.first() == id {
        0
    } else {
        1 + rank_of(ids.drop_first(), id)
    }
}

/// What the slot of row `row` holds once the ids `done` have been served.
spec fn slot_after<T: GetId>(done: Seq<i32>, row: T) -> Option<T> {
    if done.contains(row.id()) {
        None
    } else {
        Some(row)
    }
}

/// Puts `rows` into the rank that `ids` gives them.
pub fn order_by_rank<T: GetId>(ids: &Vec<i32>, rows: Vec<T>) -> (ordered: Vec<T>)
    ensures
        ordered@ == in_rank_order(ids@, rows@),
{
    let ghost orig = rows@;
    let mut rows = rows;
    let mut slots: Vec<Option<T>> = Vec::new();
    while rows.len() > 0
        invariant
            rows@ == orig.take(rows.len() as int),
            rows.len() <= orig.len(),
            slots.len() + rows.len() == orig.len(),
            forall|i: int| 0 <= i < slots.len() ==> slots[i] == Some(orig[orig.len() - 1 - i]),
        decreases rows.len(),
    {
        let row = rows.pop().unwrap();
        slots.push(Some(row));
    }
    let n = slots.len();
    let mut ordered: Vec<T> = Vec::new();
    let mut k: usize = 0;
    assert(ids@.take(0) =~= Seq::<i32>::empty());
    while k < ids.len()
        invariant
            k <= ids.len(),
            n == orig.len(),
            slots.len() == n,
            ordered@ == in_rank_order(ids@.take(k as int), orig),
            forall|t: int|
                0 <= t < n ==> slots[n - 1 - t] == slot_after(
                    ids@.take(k as int),
                    #[trigger] orig[t],
                ),
        decreases ids.len() - k,
    {
        let id = ids[k];
        let ghost done = ids@.take(k as int);
        let ghost next = ids@.take(k + 1);
        let ghost fresh = !done.contains(id);
        let ghost before = ordered@;
        proof {
            assert(next.drop_last() =~= done);
            assert(next.last() == id);
            assert(forall|x: i32| next.contains(x) <==> done.contains(x) || x == id) by {
                assert forall|x: i32| next.contains(x) implies done.contains(x) || x == id by {
                    let i = choose|i: int| 0 <= i < next.len() && next[i] == x;
                    if i < k {
                        assert(done[i] == x);
                    }
                }
                assert forall|x: i32| done.contains(x) || x == id implies next.contains(x) by {
                    if done.contains(x) {
                        let i = choose|i: int| 0 <= i < done.len() && done[i] == x;
                        assert(next[i] == x);
                    } else {
                        assert(next[k as int] == x);
                    }
                }
            }
            assert(orig.take(0) =~= Seq::<T>::empty());
        }
        let mut t: usize = 0;
        while t < n
            invariant
                t <= n,
                n == orig.len(),
                slots.len() == n,
                fresh == !done.contains(id),
                forall|x: i32| next.contains(x) <==> done.contains(x) || x == id,
                ordered@ == before + (if fresh {
                    rows_with_id(orig.take(t as int), id)
                } else {
                    Seq::empty()
                }),
                forall|u: int|
                    0 <= u < t ==> slots[n - 1 - u] == slot_after(next, #[trigger] orig[u]),
                forall|u: int|
                    t <= u < n ==> slots[n - 1 - u] == slot_after(done, #[trigger] orig[u]),
            decreases n - t,
        {
            let j = n - 1 - t;
            let ghost row = orig[t as int];
            proof {
                assert(slots[n - 1 - t] == slot_after(done, orig[t as int]));
                assert(orig.take(t + 1).drop_last() =~= orig.take(t as int));
                assert(orig.take(t + 1).last() == row);
            }
            let hit = match &slots[j] {
                Some(row) => row.get_id() == id,
                None => false,
            };
            if hit {
                let taken = slots[j].take();
                ordered.push(taken.unwrap());
                proof {
                    assert(fresh);
                    assert(ordered@ =~= before + rows_with_id(orig.take(t + 1), id));
                    assert(slots[n - 1 - t] == slot_after(next, orig[t as int]));
                }
            } else {
                proof {
                    assert(slots[n - 1 - t] == slot_after(next, orig[t as int]));
                }
            }
            t += 1;
        }
        proof {
            assert(orig.take(n as int) =~= orig);
            assert(before + Seq::<T>::empty() =~= before);
        }
        k += 1;
    }
    proof {
        assert(ids@.take(ids.len() as int) =~= ids@);
    }
    ordered
}

/// Number of rows of `rows` whose id is listed in `ids`.
pub open spec fn listed_count<T: GetId>(ids: Seq<i32>, rows: Seq<T>) -> nat
    decreases rows.len(),
{
    if rows.len() == 0 {
        0
    } else if ids.contains(rows.last().id()) {
        listed_count(ids, rows.drop_last()) + 1
    } else {
        listed_count(ids, rows.drop_last())
    }
}

/// No two rows of `rows` carry the same id.
pub open spec fn distinct_ids<T: GetId>(rows: Seq<T>) -> bool {
    forall|i: int, j: int|
        0 <= i < j < rows.len() ==> (#[trigger] rows[i]).id() != (#[trigger] rows[j]).id()
}

/// The rows picked for an id carry that id, are rows of the input, and
/// are all of them.
pub proof fn lemma_rows_with_id<T: GetId>(rows: Seq<T>, id: i32)
    ensures
        forall|i: int|
            0 <= i < rows_with_id(rows, id).len() ==> (#[trigger] rows_with_id(rows, id)[i]).id()
                == id && rows.contains(rows_with_id(rows, id)[i]),
        forall|i: int|
            0 <= i < rows.len() && (#[trigger] rows[i]).id() == id ==> rows_with_id(
                rows,
                id,
            ).contains(rows[i]),
        rows_with_id(rows, id).len() <= rows.len(),
    decreases rows.len(),
{
    let picked = rows_with_id(rows, id);
    if rows.len() > 0 {
        let before = rows.drop_last();
        let head = rows_with_id(before, id);
        lemma_rows_with_id(before, id);
        assert forall|i: int| 0 <= i < picked.len() implies (#[trigger] picked[i]).id() == id
            && rows.contains(picked[i]) by {
            if i < head.len() {
                assert(picked[i] == head[i]);
                assert(before.contains(head[i]));
                let w = choose|w: int| 0 <= w < before.len() && before[w] == head[i];
                assert(rows[w] == picked[i]);
            } else {
                assert(picked[i] == rows.last());
                assert(rows[rows.len() - 1] == picked[i]);
            }
        }
        assert forall|i: int|
            0 <= i < rows.len() && (#[trigger] rows[i]).id() == id implies picked.contains(
            rows[i],
        ) by {
            if i < before.len() {
                assert(before[i] == rows[i]);
                assert(head.contains(before[i]));
                let w = choose|w: int| 0 <= w < head.len() && head[w] == before[i];
                assert(picked[w] == rows[i]);
            } else {
                assert(picked[picked.len() - 1] == rows[i]);
            }
        }
    }
}

/// Every row of the result carries a listed id and is a row of the
/// input.
pub proof fn lemma_rank_order_members<T: GetId>(ids: Seq<i32>, rows: Seq<T>)
    ensures
        forall|i: int|
            0 <= i < in_rank_order(ids, rows).len() ==> ids.contains(
                (#[trigger] in_rank_order(ids, rows)[i]).id(),
            ) && rows.contains(in_rank_order(ids, rows)[i]),
    decreases ids.len(),
{
    let out = in_rank_order(ids, rows);
    if ids.len() > 0 {
        let before = ids.drop_last();
        let head = in_rank_order(before, rows);
        let tail = rows_with_id(rows, ids.last());
        lemma_rank_order_members(before, rows);
        lemma_rows_with_id(rows, ids.last());
        assert forall|i: int| 0 <= i < out.len() implies ids.contains((#[trigger] out[i]).id())
            && rows.contains(out[i]) by {
            if i < head.len() {
                assert(out[i] == head[i]);
                let w = choose|w: int| 0 <= w < before.len() && before[w] == head[i].id();
                assert(ids[w] == out[i].id());
            } else {
                assert(out[i] == tail[i - head.len()]);
                assert(ids[ids.len() - 1] == out[i].id());
            }
        }
    }
}

/// Every row of the input that carries a listed id is in the result.
pub proof fn lemma_rank_order_complete<T: GetId>(ids: Seq<i32>, rows: Seq<T>)
    ensures
        forall|i: int|
            0 <= i < rows.len() && ids.contains((#[trigger] rows[i]).id()) ==> in_rank_order(
                ids,
                rows,
            ).contains(rows[i]),
    decreases ids.len(),
{
    let out = in_rank_order(ids, rows);
    if ids.len() > 0 {
        let before = ids.drop_last();
        let head = in_rank_order(before, rows);
        let tail = rows_with_id(rows, ids.last());
        lemma_rank_order_complete(before, rows);
        lemma_rows_with_id(rows, ids.last());
        assert forall|i: int|
            0 <= i < rows.len() && ids.contains((#[trigger] rows[i]).id()) implies out.contains(
            rows[i],
        ) by {
            let x = rows[i].id();
            if before.contains(x) {
                assert(head.contains(rows[i]));
                let w = choose|w: int| 0 <= w < head.len() && head[w] == rows[i];
                assert(out[w] == rows[i]);
            } else {
                let m = choose|m: int| 0 <= m < ids.len() && ids[m] == x;
                if m < before.len() {
                    assert(before[m] == x);
                }
                assert(x == ids.last());
                assert(tail.contains(rows[i]));
                let w = choose|w: int| 0 <= w < tail.len() && tail[w] == rows[i];
                assert(out[head.len() + w] == rows[i]);
            }
        }
    }
}

/// The rank of an id among `ids` is the place of its first mention.
pub proof fn lemma_rank_of(ids: Seq<i32>, id: i32)
    ensures
        0 <= rank_of(ids, id) <= ids.len(),
        ids.contains(id) <==> rank_of(ids, id) < ids.len(),
        ids.contains(id) ==> ids[rank_of(ids, id)] == id,
        forall|i: int| 0 <= i < rank_of(ids, id) ==> ids[i] != id,
    decreases ids.len(),
{
    if ids.len() > 0 {
        if ids.first() == id {
            assert(ids[0] == id);
        } else {
            let rest = ids.drop_first();
            lemma_rank_of(rest, id);
            if ids.contains(id) {
                let w = choose|w: int| 0 <= w < ids.len() && ids[w] == id;
                assert(rest[w - 1] == id);
            }
            if rest.contains(id) {
                let w = choose|w: int| 0 <= w < rest.len() && rest[w] == id;
                assert(ids[w + 1] == id);
            }
            assert forall|i: int| 0 <= i < rank_of(ids, id) implies ids[i] != id by {
                if i > 0 {
                    assert(rest[i - 1] == ids[i]);
                }
            }
        }
    }
}

/// A later mention does not change the rank of an id that is listed
/// already, and an id that is mentioned for the first time ranks last.
pub proof fn lemma_rank_of_push(ids: Seq<i32>, last: i32, id: i32)
    ensures
        ids.contains(id) ==> rank_of(ids.push(last), id) == rank_of(ids, id),
        !ids.contains(id) && id == last ==> rank_of(ids.push(last), id) == ids.len(),
{
    let longer = ids.push(last);
    lemma_rank_of(ids, id);
    lemma_rank_of(longer, id);
    let r = rank_of(ids, id);
    let q = rank_of(longer, id);
    if ids.contains(id) {
        assert(longer[r] == id);
        assert(longer.contains(id));
        if q < r {
            assert(ids[q] == longer[q]);
        }
        if r < q {
            assert(longer[r] == id);
        }
    } else if id == last {
        assert(longer[ids.len() as int] == id);
        assert(longer.contains(id));
        if q < ids.len() {
            assert(ids[q] == longer[q]);
            assert(ids.contains(id));
        }
    }
}

/// The result follows the ranking: of two rows of the result, the
/// earlier one carries the id that `ids` mentions first, or both carry
/// the same id.
pub proof fn lemma_rank_order_follows_ids<T: GetId>(ids: Seq<i32>, rows: Seq<T>)
    ensures
        forall|i: int, j: int|
            0 <= i <= j < in_rank_order(ids, rows).len() ==> rank_of(
                ids,
                (#[trigger] in_rank_order(ids, rows)[i]).id(),
            ) <= rank_of(ids, (#[trigger] in_rank_order(ids, rows)[j]).id()),
    decreases ids.len(),
{
    let out = in_rank_order(ids, rows);
    if ids.len() > 0 {
        let before = ids.drop_last();
        let last = ids.last();
        let head = in_rank_order(before, rows);
        let tail = rows_with_id(rows, last);
        assert(before.push(last) =~= ids);
        lemma_rank_order_follows_ids(before, rows);
        lemma_rank_order_members(before, rows);
        lemma_rows_with_id(rows, last);
        assert forall|i: int, j: int| 0 <= i <= j < out.len() implies rank_of(
            ids,
            (#[trigger] out[i]).id(),
        ) <= rank_of(ids, (#[trigger] out[j]).id()) by {
            lemma_rank_of_push(before, last, out[i].id());
            lemma_rank_of_push(before, last, out[j].id());
            lemma_rank_of(before, out[i].id());
            lemma_rank_of(before, out[j].id());
            if j < head.len() {
                assert(out[i] == head[i] && out[j] == head[j]);
            } else if i < head.len() {
                assert(out[i] == head[i]);
                assert(out[j] == tail[j - head.len()]);
            } else {
                assert(out[i] == tail[i - head.len()]);
                assert(out[j] == tail[j - head.len()]);
            }
        }
    }
}

/// Picking the rows of an id from two sequences in a row is picking them
/// from each and putting the picks in a row.
pub proof fn lemma_rows_with_id_of_both<T: GetId>(first: Seq<T>, second: Seq<T>, id: i32)
    ensures
        rows_with_id(first + second, id) == rows_with_id(first, id) + rows_with_id(second, id),
    decreases second.len(),
{
    if second.len() == 0 {
        assert(first + second =~= first);
        assert(rows_with_id(first, id) + rows_with_id(second, id) =~= rows_with_id(first, id));
    } else {
        let shorter = second.drop_last();
        lemma_rows_with_id_of_both(first, shorter, id);
        assert((first + second).drop_last() =~= first + shorter);
        assert((first + second).last() == second.last());
        if second.last().id() == id {
            assert((rows_with_id(first, id) + rows_with_id(shorter, id)).push(second.last())
                =~= rows_with_id(first, id) + rows_with_id(shorter, id).push(second.last()));
        }
    }
}

/// Among the rows that were picked for one id, the rows of that id are
/// all of them, and there are no rows of another id.
pub proof fn lemma_rows_with_id_again<T: GetId>(rows: Seq<T>, picked: i32, id: i32)
    ensures
        rows_with_id(rows_with_id(rows, picked), id) == (if picked == id {
            rows_with_id(rows, id)
        } else {
            Seq::empty()
        }),
    decreases rows.len(),
{
    if rows.len() > 0 {
        lemma_rows_with_id_again(rows.drop_last(), picked, id);
        if rows.last().id() == picked {
            let head = rows_with_id(rows.drop_last(), picked);
            assert(head.push(rows.last()).drop_last() =~= head);
        }
    }
}

/// The result holds, for every listed id, exactly the rows that carry it,
/// in the order in which the store returned them, and no row of an id
/// that is not listed. With the order of the ids this says all of the
/// result: it is the rows of the listed ids, moved as little as the
/// ranking asks.
pub proof fn lemma_rank_order_keeps_rows<T: GetId>(ids: Seq<i32>, rows: Seq<T>, id: i32)
    ensures
        rows_with_id(in_rank_order(ids, rows), id) == (if ids.contains(id) {
            rows_with_id(rows, id)
        } else {
            Seq::empty()
        }),
    decreases ids.len(),
{
    if ids.len() > 0 {
        let before = ids.drop_last();
        let last = ids.last();
        lemma_rank_order_keeps_rows(before, rows, id);
        assert(before.push(last) =~= ids);
        assert(ids.contains(id) <==> before.contains(id) || id == last) by {
            if ids.contains(id) {
                let w = choose|w: int| 0 <= w < ids.len() && ids[w] == id;
                if w < before.len() {
                    assert(before[w] == id);
                }
            }
            if before.contains(id) {
                let w = choose|w: int| 0 <= w < before.len() && before[w] == id;
                assert(ids[w] == id);
            }
            if id == last {
                assert(ids[ids.len() - 1] == id);
            }
        }
        if !before.contains(last) {
            lemma_rows_with_id_of_both(in_rank_order(before, rows), rows_with_id(rows, last), id);
            lemma_rows_with_id_again(rows, last, id);
            if last == id {
                assert(Seq::<T>::empty() + rows_with_id(rows, id) =~= rows_with_id(rows, id));
            } else {
                assert(rows_with_id(in_rank_order(before, rows), id) + Seq::<T>::empty()
                    =~= rows_with_id(in_rank_order(before, rows), id));
            }
        }
    }
}

/// The result holds as many rows as the input has rows with a listed id.
pub proof fn lemma_rank_order_len<T: GetId>(ids: Seq<i32>, rows: Seq<T>)
    ensures
        in_rank_order(ids, rows).len() == listed_count(ids, rows),
        in_rank_order(ids, rows).len() <= rows.len(),
    decreases ids.len(),
{
    lemma_listed_count_bounded(ids, rows);
    if ids.len() == 0 {
        lemma_listed_count_none(ids, rows);
    } else {
        let before = ids.drop_last();
        assert(before.push(ids.last()) =~= ids);
        lemma_rank_order_len(before, rows);
        lemma_listed_count_push(before, ids.last(), rows);
    }
}

/// There are no more rows with a listed id than rows.
pub proof fn lemma_listed_count_bounded<T: GetId>(ids: Seq<i32>, rows: Seq<T>)
    ensures
        listed_count(ids, rows) <= rows.len(),
    decreases rows.len(),
{
    if rows.len() > 0 {
        lemma_listed_count_bounded(ids, rows.drop_last());
    }
}

/// Where no id is listed, no row has a listed id.
pub proof fn lemma_listed_count_none<T: GetId>(ids: Seq<i32>, rows: Seq<T>)
    requires
        ids.len() == 0,
    ensures
        listed_count(ids, rows) == 0,
    decreases rows.len(),
{
    if rows.len() > 0 {
        lemma_listed_count_none(ids, rows.drop_last());
    }
}

/// Listing one more id adds the rows that carry it, unless it was listed
/// before.
pub proof fn lemma_listed_count_push<T: GetId>(ids: Seq<i32>, last: i32, rows: Seq<T>)
    ensures
        listed_count(ids.push(last), rows) == listed_count(ids, rows) + (if ids.contains(last) {
            0
        } else {
            rows_with_id(rows, last).len()
        }),
    decreases rows.len(),
{
    let longer = ids.push(last);
    if rows.len() > 0 {
        lemma_listed_count_push(ids, last, rows.drop_last());
        let x = rows.last().id();
        if ids.contains(x) {
            let w = choose|w: int| 0 <= w < ids.len() && ids[w] == x;
            assert(longer[w] == x);
        }
        if x == last {
            assert(longer[ids.len() as int] == x);
        }
        if longer.contains(x) {
            let w = choose|w: int| 0 <= w < longer.len() && longer[w] == x;
            if w < ids.len() {
                assert(ids[w] == x);
            }
        }
    }
}

/// Where the store returns at most one row for an id, an id contributes
/// at most one row.
pub proof fn lemma_one_row_per_id<T: GetId>(rows: Seq<T>, id: i32)
    requires
        distinct_ids(rows),
    ensures
        rows_with_id(rows, id).len() <= 1,
    decreases rows.len(),
{
    if rows.len() > 0 {
        let before = rows.drop_last();
        assert(distinct_ids(before)) by {
            assert forall|i: int, j: int| 0 <= i < j < before.len() implies (
            #[trigger] before[i]).id() != (#[trigger] before[j]).id() by {
                assert(before[i] == rows[i] && before[j] == rows[j]);
            }
        }
        lemma_one_row_per_id(before, id);
        if rows.last().id() == id {
            lemma_rows_with_id(before, id);
            let head = rows_with_id(before, id);
            if head.len() > 0 {
                assert(head[0].id() == id && before.contains(head[0]));
                let w = choose|w: int| 0 <= w < before.len() && before[w] == head[0];
                assert(rows[w].id() == rows[rows.len() - 1].id());
            }
        }
    }
}

/// Where the store returns at most one row for an id, the result holds
/// no more rows than ids were listed: a page that was asked of the search
/// service with a limit stays within that limit.
pub proof fn lemma_rank_order_within_limit<T: GetId>(ids: Seq<i32>, rows: Seq<T>)
    requires
        distinct_ids(rows),
    ensures
        in_rank_order(ids, rows).len() <= ids.len(),
    decreases ids.len(),
{
    if ids.len() > 0 {
        lemma_rank_order_within_limit(ids.drop_last(), rows);
        lemma_one_row_per_id(rows, ids.last());
    }
}

/// Where the ids are listed once each and the store returns exactly one
/// row for each, the result lists the rows id by id, as the search
/// service ranked them.
pub proof fn lemma_rank_order_matches_ids<T: GetId>(ids: Seq<i32>, rows: Seq<T>)
    requires
        ids.no_duplicates(),
        forall|k: int| 0 <= k < ids.len() ==> rows_with_id(rows, #[trigger] ids[k]).len() == 1,
    ensures
        in_rank_order(ids, rows).len() == ids.len(),
        forall|k: int|
            0 <= k < ids.len() ==> (#[trigger] in_rank_order(ids, rows)[k]).id() == ids[k],
    decreases ids.len(),
{
    if ids.len() > 0 {
        let before = ids.drop_last();
        let last = ids.last();
        assert(before.no_duplicates());
        assert forall|k: int| 0 <= k < before.len() implies rows_with_id(
            rows,
            #[trigger] before[k],
        ).len() == 1 by {
            assert(before[k] == ids[k]);
        }
        lemma_rank_order_matches_ids(before, rows);
        if before.contains(last) {
            let w = choose|w: int| 0 <= w < before.len() && before[w] == last;
            assert(ids[w] == ids[ids.len() - 1]);
        }
        lemma_rows_with_id(rows, last);
        let out = in_rank_order(ids, rows);
        let head = in_rank_order(before, rows);
        let tail = rows_with_id(rows, last);
        assert(tail.len() == 1) by {
            assert(ids[ids.len() - 1] == last);
        }
        assert forall|k: int| 0 <= k < ids.len() implies (#[trigger] out[k]).id() == ids[k] by {
            if k < before.len() {
                assert(out[k] == head[k]);
                assert(before[k] == ids[k]);
            } else {
                assert(out[k] == tail[0]);
            }
        }
    }
}

} // verus!
