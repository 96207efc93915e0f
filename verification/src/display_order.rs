//! The order in which visible tasks are shown.
//!
//! Tasks are shown by ascending `sort_order`. Within one `sort_order` the tasks that carry
//! an explicit `overwrite_order` come first, by ascending value; those without one follow.
//! Tasks that tie on both keep the order in which the catalog handed them over.

use vstd::prelude::*;
use crate::records::{AggregatedTaskModel, AggregatedTaskView, view_models};

verus! {

/// The rank of an endpoint type in the priority table: `quiz` is 1, `default` is 2, and
/// every other type, or none, is 3.
pub open spec fn priority(endpoint_type: Option<Seq<char>>) -> u8 {
    if endpoint_type == Some("quiz"@) {
        1
    } else if endpoint_type == Some("default"@) {
        2
    } else {
        3
    }
}

/// Whether override `a` ranks strictly before override `b`: a smaller value before a
/// larger one, and any value before none.
pub open spec fn override_before(a: Option<i64>, b: Option<i64>) -> bool {
    match (a, b) {
        (Some(x), Some(y)) => x < y,
        (Some(_), None) => true,
        (None, _) => false,
    }
}

/// Whether `a` is shown before `b` wherever the two stood in the input.
pub open spec fn shown_before(a: AggregatedTaskModel, b: AggregatedTaskModel) -> bool {
    a.sort_order < b.sort_order || (a.sort_order == b.sort_order && override_before(
        a.task.overwrite_order,
        b.task.overwrite_order,
    ))
}

/// Whether `a` and `b` have the same keys.
pub open spec fn ties(a: AggregatedTaskModel, b: AggregatedTaskModel) -> bool {
    a.sort_order == b.sort_order && a.task.overwrite_order == b.task.overwrite_order
}

/// Two tasks tie exactly where neither is shown before the other.
pub proof fn ties_where_neither_is_before(a: AggregatedTaskModel, b: AggregatedTaskModel)
    ensures
        ties(a, b) <==> !shown_before(a, b) && !shown_before(b, a),
{
}

/// Whether no task of `views` stands behind one that it is shown before.
pub open spec fn in_display_order(views: Seq<AggregatedTaskModel>) -> bool {
    forall|i: int, j: int|
        0 <= i < j < views.len() ==> !shown_before(#[trigger] views[j], #[trigger] views[i])
}

/// Where `x` goes into `placed`: behind the last task that `x` is not shown before.
pub open spec fn slot(placed: Seq<AggregatedTaskModel>, x: AggregatedTaskModel) -> int
    decreases placed.len(),
{
    if placed.len() == 0 {
        0
    } else if shown_before(x, placed.last()) {
        slot(placed.drop_last(), x)
    } else {
        placed.len() as int
    }
}

/// The display order of `views`: each task in turn, as the input has them, takes its
/// slot among those taken before it.
pub open spec fn display_order(views: Seq<AggregatedTaskModel>) -> Seq<AggregatedTaskModel>
    decreases views.len(),
{
    if views.len() == 0 {
        Seq::empty()
    } else {
        let placed = display_order(views.drop_last());
        placed.insert(slot(placed, views.last()), views.last())
    }
}

/// A slot lies within the sequence or at its end; everything from the slot on is shown
/// after `x`, and the task just before the slot is not.
pub proof fn slot_bounds(placed: Seq<AggregatedTaskModel>, x: AggregatedTaskModel)
    ensures
        0 <= slot(placed, x) <= placed.len(),
        forall|k: int| slot(placed, x) <= k < placed.len() ==> shown_before(x, #[trigger] placed[k]),
        slot(placed, x) > 0 ==> !shown_before(x, placed[slot(placed, x) - 1]),
    decreases placed.len(),
{
    if placed.len() > 0 && shown_before(x, placed.last()) {
        let front = placed.drop_last();
        slot_bounds(front, x);
        assert forall|k: int| slot(placed, x) <= k < placed.len() implies shown_before(
            x,
            #[trigger] placed[k],
        ) by {
            if k < front.len() {
                assert(placed[k] == front[k]);
            }
        }
        if slot(placed, x) > 0 {
            assert(placed[slot(placed, x) - 1] == front[slot(front, x) - 1]);
        }
    }
}

/// Sorting neither adds nor drops a task.
pub proof fn display_order_len(views: Seq<AggregatedTaskModel>)
    ensures
        display_order(views).len() == views.len(),
    decreases views.len(),
{
    if views.len() > 0 {
        display_order_len(views.drop_last());
        slot_bounds(display_order(views.drop_last()), views.last());
    }
}

/// The result of sorting is in display order.
pub proof fn display_order_is_ordered(views: Seq<AggregatedTaskModel>)
    ensures
        in_display_order(display_order(views)),
    decreases views.len(),
{
    if views.len() > 0 {
        let placed = display_order(views.drop_last());
        let x = views.last();
        let p = slot(placed, x);
        display_order_is_ordered(views.drop_last());
        slot_bounds(placed, x);
        let out = placed.insert(p, x);
        assert forall|i: int, j: int| 0 <= i < j < out.len() implies !shown_before(
            #[trigger] out[j],
            #[trigger] out[i],
        ) by {
            if j == p {
                // out[j] is x, and out[i] stands before the slot
                assert(out[i] == placed[i]);
                if shown_before(x, placed[i]) {
                    assert(!shown_before(placed[p - 1], placed[i]));
                }
            } else if i == p {
                assert(out[j] == placed[j - 1]);
                assert(shown_before(x, placed[j - 1]));
            } else {
                let pi = if i < p { i } else { i - 1 };
                let pj = if j < p { j } else { j - 1 };
                assert(out[i] == placed[pi]);
                assert(out[j] == placed[pj]);
            }
        }
    }
}

/// Sorting keeps every task, each as often as the input holds it.
pub proof fn display_order_keeps_tasks(views: Seq<AggregatedTaskModel>)
    ensures
        display_order(views).to_multiset() == views.to_multiset(),
        forall|v: AggregatedTaskModel| display_order(views).contains(v) <==> views.contains(v),
    decreases views.len(),
{
    broadcast use vstd::seq_lib::group_to_multiset_ensures;

    if views.len() == 0 {
        assert(display_order(views) =~= views);
    } else {
        let front = views.drop_last();
        let x = views.last();
        let placed = display_order(front);
        display_order_keeps_tasks(front);
        slot_bounds(placed, x);
        vstd::seq_lib::to_multiset_insert(placed, slot(placed, x), x);
        assert(views =~= front.push(x));
        vstd::seq_lib::to_multiset_build(front, x);
    }
    let sorted = display_order(views);
    assert forall|v: AggregatedTaskModel| sorted.contains(v) <==> views.contains(v) by {
        sorted.to_multiset_ensures();
        views.to_multiset_ensures();
        assert(sorted.contains(v) <==> sorted.to_multiset().count(v) > 0);
        assert(views.contains(v) <==> views.to_multiset().count(v) > 0);
    }
}

/// A filter keeps nothing of a sequence in which nothing passes it.
proof fn filter_keeps_nothing(views: Seq<AggregatedTaskModel>, pass: spec_fn(AggregatedTaskModel) -> bool)
    requires
        forall|k: int| 0 <= k < views.len() ==> !pass(#[trigger] views[k]),
    ensures
        views.filter(pass) == Seq::<AggregatedTaskModel>::empty(),
    decreases views.len(),
{
    reveal(Seq::filter);
    if views.len() > 0 {
        let front = views.drop_last();
        assert forall|k: int| 0 <= k < front.len() implies !pass(#[trigger] front[k]) by {
            assert(front[k] == views[k]);
        }
        filter_keeps_nothing(front, pass);
    }
}

/// Sorting is stable: the tasks that tie with `a` stand in the result as they stood in
/// the input.
pub proof fn display_order_is_stable(views: Seq<AggregatedTaskModel>, a: AggregatedTaskModel)
    ensures
        tied_with(display_order(views), a) == tied_with(views, a),
    decreases views.len(),
{
    let tied = |v: AggregatedTaskModel| ties(v, a);
    reveal(Seq::filter);
    if views.len() == 0 {
        assert(display_order(views) =~= views);
    } else {
        let front = views.drop_last();
        let x = views.last();
        let placed = display_order(front);
        let p = slot(placed, x);
        display_order_is_stable(front, a);
        slot_bounds(placed, x);
        let head = placed.take(p);
        let tail = placed.skip(p);
        let out = placed.insert(p, x);
        assert(placed =~= head + tail);
        assert(out =~= head.push(x) + tail);
        Seq::filter_distributes_over_add(head, tail, tied);
        Seq::filter_distributes_over_add(head.push(x), tail, tied);
        assert(head.push(x).drop_last() =~= head);
        if ties(x, a) {
            assert forall|k: int| 0 <= k < tail.len() implies !tied(#[trigger] tail[k]) by {
                assert(tail[k] == placed[p + k]);
                assert(shown_before(x, placed[p + k]));
            }
            filter_keeps_nothing(tail, tied);
            assert(out.filter(tied) =~= placed.filter(tied).push(x));
        } else {
            assert(out.filter(tied) =~= placed.filter(tied));
        }
    }
}

/// The tasks of `views` that tie with `t`, in the order of `views`.
pub open spec fn tied_with(views: Seq<AggregatedTaskModel>, t: AggregatedTaskModel) -> Seq<
    AggregatedTaskModel,
> {
    views.filter(|v: AggregatedTaskModel| ties(v, t))
}

/// Whether the tasks that tie with one another stand in `a` as they stand in `b`,
/// whichever tasks these are.
pub open spec fn same_tie_order(a: Seq<AggregatedTaskModel>, b: Seq<AggregatedTaskModel>) -> bool {
    forall|t: AggregatedTaskModel| #[trigger] tied_with(a, t) == tied_with(b, t)
}

/// Taking the last task off a sequence takes it off the tasks that tie with it and
/// leaves the other ties alone.
proof fn tied_with_last(views: Seq<AggregatedTaskModel>, t: AggregatedTaskModel)
    requires
        views.len() > 0,
    ensures
        tied_with(views, t) == if ties(views.last(), t) {
            tied_with(views.drop_last(), t).push(views.last())
        } else {
            tied_with(views.drop_last(), t)
        },
{
    reveal(Seq::filter);
}

/// A task of a sequence is among the tasks that tie with it, and whatever ties with a
/// task is a task of the sequence.
proof fn tied_with_members(views: Seq<AggregatedTaskModel>, t: AggregatedTaskModel)
    ensures
        forall|k: int| 0 <= k < views.len() && ties(#[trigger] views[k], t) ==> tied_with(views, t).contains(views[k]),
        forall|k: int|
            0 <= k < tied_with(views, t).len() ==> ties(#[trigger] tied_with(views, t)[k], t)
                && views.contains(tied_with(views, t)[k]),
        tied_with(views, t).len() <= views.len(),
{
    let tied = |v: AggregatedTaskModel| ties(v, t);
    views.lemma_filter_len(tied);
    assert forall|k: int| 0 <= k < views.len() && ties(#[trigger] views[k], t) implies tied_with(
        views,
        t,
    ).contains(views[k]) by {
        views.lemma_filter_contains(tied, k);
    }
    assert forall|k: int| 0 <= k < tied_with(views, t).len() implies ties(
        #[trigger] tied_with(views, t)[k],
        t,
    ) && views.contains(tied_with(views, t)[k]) by {
        views.lemma_filter_pred(tied, k);
        assert(tied_with(views, t).contains(tied_with(views, t)[k]));
        views.lemma_filter_contains_rev(tied, tied_with(views, t)[k]);
    }
}

/// Two sequences in display order in which ties stand alike are the same sequence.
pub proof fn display_order_is_determined(a: Seq<AggregatedTaskModel>, b: Seq<AggregatedTaskModel>)
    requires
        in_display_order(a),
        in_display_order(b),
        same_tie_order(a, b),
    ensures
        a == b,
    decreases a.len(),
{
    if a.len() == 0 {
        if b.len() > 0 {
            tied_with_members(b, b[0]);
            tied_with_members(a, b[0]);
            assert(tied_with(b, b[0]).contains(b[0]));
            assert(tied_with(a, b[0]) == tied_with(b, b[0]));
        }
        assert(a =~= b);
    } else {
        let x = a.last();
        tied_with_last(a, x);
        tied_with_members(b, x);
        assert(tied_with(a, x) == tied_with(b, x));
        let class = tied_with(b, x);
        assert(class.len() > 0 && class.last() == x);
        assert(b.contains(class[class.len() - 1]));
        let y = b.last();
        if !ties(y, x) {
            tied_with_members(b, y);
            tied_with_members(a, y);
            assert(tied_with(a, y) == tied_with(b, y));
            assert(tied_with(b, y).contains(b[b.len() - 1]));
            let in_class = choose|k: int| 0 <= k < tied_with(a, y).len() && tied_with(a, y)[k] == y;
            assert(a.contains(tied_with(a, y)[in_class]));
            let i = choose|i: int| 0 <= i < a.len() && a[i] == y;
            let j = choose|j: int| 0 <= j < b.len() && b[j] == x;
            assert(i < a.len() - 1);
            assert(j < b.len() - 1);
            assert(!shown_before(a[a.len() - 1], a[i]));
            assert(!shown_before(b[b.len() - 1], b[j]));
            assert(false);
        }
        tied_with_last(b, x);
        assert(tied_with(b, x).last() == y);
        assert(y == x);
        let front_a = a.drop_last();
        let front_b = b.drop_last();
        assert forall|t: AggregatedTaskModel| #[trigger] tied_with(front_a, t) == tied_with(
            front_b,
            t,
        ) by {
            tied_with_last(a, t);
            tied_with_last(b, t);
            assert(tied_with(a, t) == tied_with(b, t));
            if ties(x, t) {
                assert(tied_with(front_a, t).push(x).drop_last() =~= tied_with(front_a, t));
                assert(tied_with(front_b, t).push(x).drop_last() =~= tied_with(front_b, t));
            }
        }
        assert forall|i: int, j: int| 0 <= i < j < front_a.len() implies !shown_before(
            #[trigger] front_a[j],
            #[trigger] front_a[i],
        ) by {
            assert(!shown_before(a[j], a[i]));
        }
        assert forall|i: int, j: int| 0 <= i < j < front_b.len() implies !shown_before(
            #[trigger] front_b[j],
            #[trigger] front_b[i],
        ) by {
            assert(!shown_before(b[j], b[i]));
        }
        display_order_is_determined(front_a, front_b);
        assert(a =~= front_a.push(x));
        assert(b =~= front_b.push(y));
    }
}

/// The display order of `views` is the one sequence that is in display order and in
/// which ties stand as they stand in `views`.
pub proof fn display_order_is_unique(views: Seq<AggregatedTaskModel>, other: Seq<AggregatedTaskModel>)
    ensures
        other == display_order(views) <==> in_display_order(other) && same_tie_order(other, views),
{
    let sorted = display_order(views);
    display_order_is_ordered(views);
    assert forall|t: AggregatedTaskModel| #[trigger] tied_with(sorted, t) == tied_with(views, t) by {
        display_order_is_stable(views, t);
    }
    if in_display_order(other) && same_tie_order(other, views) {
        assert forall|t: AggregatedTaskModel| #[trigger] tied_with(other, t) == tied_with(sorted, t) by {
            assert(tied_with(other, t) == tied_with(views, t));
            assert(tied_with(sorted, t) == tied_with(views, t));
        }
        display_order_is_determined(other, sorted);
    }
}

/// Whether `a` is shown before `b`, by the keys alone.
pub fn precedes(a: &AggregatedTaskView, b: &AggregatedTaskView) -> (r: bool)
    ensures
        r == shown_before(a@, b@),
{
    if a.sort_order != b.sort_order {
        a.sort_order < b.sort_order
    } else {
        match (a.task.overwrite_order, b.task.overwrite_order) {
            (Some(x), Some(y)) => x < y,
            (Some(_), None) => true,
            (None, _) => false,
        }
    }
}

/// The slot of `x` among `placed`, found from the back.
pub fn find_slot(placed: &Vec<AggregatedTaskView>, x: &AggregatedTaskView) -> (p: usize)
    ensures
        p == slot(view_models(placed@), x@),
        p <= placed.len(),
{
    let ghost models = view_models(placed@);
    let mut p: usize = placed.len();
    assert(models.take(p as int) =~= models);
    while p > 0 && precedes(x, &placed[p - 1])
        invariant
            p <= placed.len(),
            models == view_models(placed@),
            slot(models, x@) == slot(models.take(p as int), x@),
        decreases p,
    {
        assert(models.take(p as int).drop_last() =~= models.take(p as int - 1));
        p = p - 1;
    }
    p
}

/// Puts aggregated tasks in display order.
pub fn sort_views(views: Vec<AggregatedTaskView>) -> (sorted: Vec<AggregatedTaskView>)
    ensures
        view_models(sorted@) == display_order(view_models(views@)),
        sorted.len() == views.len(),
{
    let ghost input = views@;
    let mut sorted: Vec<AggregatedTaskView> = Vec::new();
    assert(view_models(input.take(0)) =~= Seq::empty());
    for v in it: views
        invariant
            it.seq() == input,
            sorted.len() == it.index(),
            view_models(sorted@) == display_order(view_models(input.take(it.index()))),
    {
        let ghost before = view_models(sorted@);
        let ghost k = it.index();
        let p = find_slot(&sorted, &v);
        sorted.insert(p, v);
        proof {
            assert(view_models(input.take(k + 1)).drop_last() =~= view_models(input.take(k)));
            assert(view_models(input.take(k + 1)).last() == v@);
            assert(view_models(sorted@) =~= before.insert(p as int, v@));
        }
    }
    assert(input.take(input.len() as int) =~= input);
    sorted
}

} // verus!
