//! The View Builder: derives the filtered, ordered view of workspaces to
//! display from a snapshot, an occupancy count and the user's policy.

use vstd::prelude::*;
use crate::model::{WorkspaceSnapshot, DisplayPolicy, opt_str_matches, opt_str_eq, clone_opt_string};
use crate::filter::Occupancy;

verus! {

/// The output that scopes the view: none when every output is shown,
/// otherwise the output of the first snapshot in fetch order (the bar's own
/// output, by assumption).
pub open spec fn spec_reference_output(snaps: Seq<WorkspaceSnapshot>, all_outputs: bool) -> Option<
    String,
> {
    if all_outputs || snaps.len() == 0 {
        Option::None
    } else {
        snaps[0].output
    }
}

/// Whether a workspace falls inside the displayed output scope.
pub open spec fn in_scope(
    w: WorkspaceSnapshot,
    reference: Option<String>,
    all_outputs: bool,
) -> bool {
    all_outputs || opt_str_matches(w.output, reference)
}

/// The highest `idx` among in-scope workspaces with at least one counted
/// window; zero when there is none.
pub open spec fn max_occupied_idx(
    snaps: Seq<WorkspaceSnapshot>,
    reference: Option<String>,
    all_outputs: bool,
    occ: Occupancy,
) -> u32
    decreases snaps.len(),
{
    if snaps.len() == 0 {
        0u32
    } else {
        let m = max_occupied_idx(snaps.drop_last(), reference, all_outputs, occ);
        let w = snaps.last();
        if in_scope(w, reference, all_outputs) && occ.count(w.id) > 0 && w.idx > m {
            w.idx
        } else {
            m
        }
    }
}

/// Whether a workspace is displayed: it must be in scope, and either hold a
/// counted window or sit one index past the highest occupied index — shown
/// unconditionally when empty workspaces are shown, else only while active.
pub open spec fn included(
    w: WorkspaceSnapshot,
    reference: Option<String>,
    all_outputs: bool,
    max_idx: u32,
    show_empty: bool,
    occ: Occupancy,
) -> bool {
    in_scope(w, reference, all_outputs) && (occ.count(w.id) > 0 || (w.idx == max_idx + 1 && (
    show_empty || w.is_active)))
}

/// The subsequence of displayed snapshots, still in fetch order.
pub open spec fn filter_included(
    snaps: Seq<WorkspaceSnapshot>,
    reference: Option<String>,
    all_outputs: bool,
    max_idx: u32,
    show_empty: bool,
    occ: Occupancy,
) -> Seq<WorkspaceSnapshot>
    decreases snaps.len(),
{
    if snaps.len() == 0 {
        Seq::empty()
    } else {
        filter_included(snaps.drop_last(), reference, all_outputs, max_idx, show_empty, occ)
            + if included(snaps.last(), reference, all_outputs, max_idx, show_empty, occ) {
            seq![snaps.last()]
        } else {
            Seq::empty()
        }
    }
}

/// Insertion of a workspace behind every entry whose `idx` is not greater:
/// the step of a stable insertion sort by ascending `idx`.
pub open spec fn insert_by_idx(s: Seq<WorkspaceSnapshot>, w: WorkspaceSnapshot) -> Seq<
    WorkspaceSnapshot,
>
    decreases s.len(),
{
    if s.len() == 0 {
        seq![w]
    } else if s[0].idx <= w.idx {
        seq![s[0]] + insert_by_idx(s.skip(1), w)
    } else {
        seq![w] + s
    }
}

/// Stable insertion sort of a view by ascending `idx`.
pub open spec fn sort_by_idx(s: Seq<WorkspaceSnapshot>) -> Seq<WorkspaceSnapshot>
    decreases s.len(),
{
    if s.len() == 0 {
        Seq::empty()
    } else {
        insert_by_idx(sort_by_idx(s.drop_last()), s.last())
    }
}

/// The ordered view that a snapshot, an occupancy count and a policy yield.
pub open spec fn spec_build(
    snaps: Seq<WorkspaceSnapshot>,
    occ: Occupancy,
    policy: DisplayPolicy,
) -> Seq<WorkspaceSnapshot> {
    let reference = spec_reference_output(snaps, policy.all_outputs);
    let m = max_occupied_idx(snaps, reference, policy.all_outputs, occ);
    sort_by_idx(
        filter_included(
            snaps,
            reference,
            policy.all_outputs,
            m,
            policy.show_empty_workspace,
            occ,
        ),
    )
}

/// The position at which `insert_by_idx` places `w`: past every entry whose
/// `idx` is not greater than `w.idx`.
spec fn insert_pos(s: Seq<WorkspaceSnapshot>, w: WorkspaceSnapshot) -> int
    decreases s.len(),
{
    if s.len() == 0 {
        0int
    } else if s[0].idx <= w.idx {
        1 + insert_pos(s.skip(1), w)
    } else {
        0int
    }
}

proof fn lemma_insert_by_idx_shape(s: Seq<WorkspaceSnapshot>, w: WorkspaceSnapshot)
    ensures
        0 <= insert_pos(s, w) <= s.len(),
        forall|q: int| 0 <= q < insert_pos(s, w) ==> (#[trigger] s[q].idx) <= w.idx,
        insert_pos(s, w) < s.len() ==> s[insert_pos(s, w)].idx > w.idx,
        insert_by_idx(s, w) =~= s.take(insert_pos(s, w)) + seq![w] + s.skip(insert_pos(s, w)),
    decreases s.len(),
{
    if s.len() == 0 {
        assert(insert_by_idx(s, w) =~= s.take(0) + seq![w] + s.skip(0));
    } else if s[0].idx <= w.idx {
        lemma_insert_by_idx_shape(s.skip(1), w);
        let p = insert_pos(s, w);
        assert(p == 1 + insert_pos(s.skip(1), w));
        assert(forall|q: int| 1 <= q < p ==> (#[trigger] s[q].idx) <= w.idx) by {
            assert(forall|q: int|
                0 <= q < insert_pos(s.skip(1), w) ==> (#[trigger] s.skip(1)[q].idx) <= w.idx);
            assert(forall|q: int| 1 <= q < p ==> s[q] == s.skip(1)[q - 1]);
        }
        assert(insert_by_idx(s, w) =~= s.take(p) + seq![w] + s.skip(p));
    } else {
        assert(insert_by_idx(s, w) =~= s.take(0) + seq![w] + s.skip(0));
    }
}

/// The position that `build` inserts at is the one `insert_by_idx` names.
proof fn lemma_insert_at(s: Seq<WorkspaceSnapshot>, w: WorkspaceSnapshot, p: int)
    requires
        0 <= p <= s.len(),
        forall|q: int| 0 <= q < p ==> (#[trigger] s[q].idx) <= w.idx,
        p < s.len() ==> s[p].idx > w.idx,
        sorted_by_idx(s),
    ensures
        insert_by_idx(s, w) =~= s.take(p) + seq![w] + s.skip(p),
{
    lemma_insert_by_idx_shape(s, w);
    let p0 = insert_pos(s, w);
    if p0 < p {
        assert(s[p0].idx > w.idx);
        assert(s[p0].idx <= w.idx);
    } else if p < p0 {
        assert(s[p].idx > w.idx);
        assert(s[p].idx <= w.idx);
    }
}

/// Ascending by `idx`.
pub open spec fn sorted_by_idx(s: Seq<WorkspaceSnapshot>) -> bool {
    forall|i: int, j: int| 0 <= i < j < s.len() ==> (#[trigger] s[i].idx) <= (#[trigger] s[j].idx)
}

/// No two entries share a workspace id.
pub open spec fn unique_ids(s: Seq<WorkspaceSnapshot>) -> bool {
    forall|i: int, j: int| 0 <= i < j < s.len() ==> (#[trigger] s[i].id) != (#[trigger] s[j].id)
}

/// Derives the ordered view: scopes snapshots to the reference output,
/// keeps the occupied ones plus the policy's next-empty slot, and sorts the
/// result ascending by `idx`.
pub fn build(snapshots: &Vec<WorkspaceSnapshot>, occ: &Occupancy, policy: &DisplayPolicy) -> (view:
    Vec<WorkspaceSnapshot>)
    ensures
        view@ == spec_build(snapshots@, *occ, *policy),
{
    let all = policy.all_outputs;
    let reference: Option<String> = if all || snapshots.len() == 0 {
        Option::None
    } else {
        clone_opt_string(&snapshots[0].output)
    };
    proof {
        assert(reference == spec_reference_output(snapshots@, all));
    }
    let show_empty = policy.show_empty_workspace;

    let mut max_idx: u32 = 0;
    let mut i: usize = 0;
    while i < snapshots.len()
        invariant
            i <= snapshots.len(),
            reference == spec_reference_output(snapshots@, all),
            max_idx == max_occupied_idx(snapshots@.take(i as int), reference, all, *occ),
        decreases snapshots.len() - i,
    {
        let w = &snapshots[i];
        let scope_ok = all || opt_str_eq(&w.output, &reference);
        if scope_ok && occ.get(w.id) > 0 && w.idx > max_idx {
            max_idx = w.idx;
        }
        proof {
            assert(snapshots@.take(i + 1).drop_last() =~= snapshots@.take(i as int));
            assert(snapshots@.take(i + 1).last() == snapshots@[i as int]);
        }
        i = i + 1;
    }
    proof {
        assert(snapshots@.take(snapshots@.len() as int) =~= snapshots@);
    }
    let ghost m = max_occupied_idx(snapshots@, reference, all, *occ);

    let mut view: Vec<WorkspaceSnapshot> = Vec::new();
    let mut i: usize = 0;
    while i < snapshots.len()
        invariant
            i <= snapshots.len(),
            reference == spec_reference_output(snapshots@, all),
            max_idx == m,
            m == max_occupied_idx(snapshots@, reference, all, *occ),
            view@ == sort_by_idx(
                filter_included(snapshots@.take(i as int), reference, all, m, show_empty, *occ),
            ),
            sorted_by_idx(view@),
        decreases snapshots.len() - i,
    {
        let ghost fprev = filter_included(
            snapshots@.take(i as int),
            reference,
            all,
            m,
            show_empty,
            *occ,
        );
        let w = &snapshots[i];
        let scope_ok = all || opt_str_eq(&w.output, &reference);
        let cnt = occ.get(w.id);
        let inc = scope_ok && (cnt > 0 || ((w.idx as u64) == (max_idx as u64) + 1 && (show_empty
            || w.is_active)));
        proof {
            assert(inc == included(snapshots@[i as int], reference, all, m, show_empty, *occ));
            assert(snapshots@.take(i + 1).drop_last() =~= snapshots@.take(i as int));
            assert(snapshots@.take(i + 1).last() == snapshots@[i as int]);
        }
        if inc {
            let mut p: usize = 0;
            while p < view.len() && view[p].idx <= w.idx
                invariant
                    p <= view.len(),
                    forall|q: int| 0 <= q < p ==> (#[trigger] view@[q].idx) <= w.idx,
                decreases view.len() - p,
            {
                p = p + 1;
            }
            proof {
                lemma_insert_at(view@, snapshots@[i as int], p as int);
                assert(filter_included(
                    snapshots@.take(i + 1),
                    reference,
                    all,
                    m,
                    show_empty,
                    *occ,
                ) =~= fprev.push(snapshots@[i as int]));
                assert(fprev.push(snapshots@[i as int]).drop_last() =~= fprev);
                assert(sort_by_idx(fprev.push(snapshots@[i as int])) == insert_by_idx(
                    view@,
                    snapshots@[i as int],
                ));
            }
            let ghost oldview = view@;
            view.insert(p, w.clone());
            proof {
                assert(view@ =~= oldview.take(p as int) + seq![snapshots@[i as int]]
                    + oldview.skip(p as int));
                assert(view@ == sort_by_idx(
                    filter_included(snapshots@.take(i + 1), reference, all, m, show_empty, *occ),
                ));
                lemma_insert_by_idx_shape(oldview, snapshots@[i as int]);
                assert(sorted_by_idx(view@)) by {
                    let wi = snapshots@[i as int];
                    assert(forall|q: int|
                        0 <= q < view@.len() ==> view@[q] == (if q < p {
                            oldview[q]
                        } else if q == p {
                            wi
                        } else {
                            oldview[q - 1]
                        }));
                }
            }
        } else {
            proof {
                assert(filter_included(
                    snapshots@.take(i + 1),
                    reference,
                    all,
                    m,
                    show_empty,
                    *occ,
                ) =~= fprev);
            }
        }
        i = i + 1;
    }
    proof {
        assert(snapshots@.take(snapshots@.len() as int) =~= snapshots@);
    }
    view
}

/// How many entries of `s` satisfy `p`.
pub open spec fn count_matching(s: Seq<WorkspaceSnapshot>, p: spec_fn(WorkspaceSnapshot) -> bool) -> nat
    decreases s.len(),
{
    if s.len() == 0 {
        0
    } else {
        count_matching(s.drop_last(), p) + if p(s.last()) {
            1nat
        } else {
            0nat
        }
    }
}

proof fn lemma_count_matching_concat(
    a: Seq<WorkspaceSnapshot>,
    b: Seq<WorkspaceSnapshot>,
    p: spec_fn(WorkspaceSnapshot) -> bool,
)
    ensures
        count_matching(a + b, p) == count_matching(a, p) + count_matching(b, p),
    decreases b.len(),
{
    if b.len() == 0 {
        assert(a + b =~= a);
    } else {
        lemma_count_matching_concat(a, b.drop_last(), p);
        assert((a + b).drop_last() =~= a + b.drop_last());
        assert((a + b).last() == b.last());
    }
}

proof fn lemma_count_matching_single(w: WorkspaceSnapshot, p: spec_fn(WorkspaceSnapshot) -> bool)
    ensures
        count_matching(seq![w], p) == if p(w) {
            1nat
        } else {
            0nat
        },
{
    assert(seq![w].drop_last() =~= Seq::<WorkspaceSnapshot>::empty());
    assert(count_matching(Seq::<WorkspaceSnapshot>::empty(), p) == 0);
    assert(seq![w].last() == w);
}

proof fn lemma_count_matching_insert(
    s: Seq<WorkspaceSnapshot>,
    w: WorkspaceSnapshot,
    p: spec_fn(WorkspaceSnapshot) -> bool,
)
    ensures
        count_matching(insert_by_idx(s, w), p) == count_matching(s, p) + if p(w) {
            1nat
        } else {
            0nat
        },
{
    lemma_insert_by_idx_shape(s, w);
    let q = insert_pos(s, w);
    lemma_count_matching_concat(s.take(q) + seq![w], s.skip(q), p);
    lemma_count_matching_concat(s.take(q), seq![w], p);
    lemma_count_matching_concat(s.take(q), s.skip(q), p);
    assert(s.take(q) + s.skip(q) =~= s);
    lemma_count_matching_single(w, p);
}

proof fn lemma_count_matching_sort(s: Seq<WorkspaceSnapshot>, p: spec_fn(WorkspaceSnapshot) -> bool)
    ensures
        count_matching(sort_by_idx(s), p) == count_matching(s, p),
    decreases s.len(),
{
    if s.len() == 0 {
    } else {
        lemma_count_matching_sort(s.drop_last(), p);
        lemma_count_matching_insert(sort_by_idx(s.drop_last()), s.last(), p);
    }
}

proof fn lemma_count_matching_witness(s: Seq<WorkspaceSnapshot>, p: spec_fn(WorkspaceSnapshot) -> bool)
    ensures
        (count_matching(s, p) >= 1) <==> (exists|i: int| 0 <= i < s.len() && p(#[trigger] s[i])),
    decreases s.len(),
{
    if s.len() == 0 {
    } else {
        let dl = s.drop_last();
        lemma_count_matching_witness(dl, p);
        assert(forall|i: int| 0 <= i < dl.len() ==> #[trigger] dl[i] == s[i]);
        if p(s.last()) {
            assert(p(s[s.len() - 1]));
        } else {
            if count_matching(s, p) >= 1 {
                let i = choose|i: int| 0 <= i < dl.len() && p(#[trigger] dl[i]);
                assert(p(s[i]));
            }
            if exists|i: int| 0 <= i < s.len() && p(#[trigger] s[i]) {
                let i = choose|i: int| 0 <= i < s.len() && p(#[trigger] s[i]);
                assert(i < s.len() - 1);
                assert(p(dl[i]));
            }
        }
    }
}

proof fn lemma_count_matching_two(
    s: Seq<WorkspaceSnapshot>,
    p: spec_fn(WorkspaceSnapshot) -> bool,
    i: int,
    j: int,
)
    requires
        0 <= i < j < s.len(),
        p(s[i]),
        p(s[j]),
    ensures
        count_matching(s, p) >= 2,
    decreases s.len(),
{
    let dl = s.drop_last();
    if j == s.len() - 1 {
        lemma_count_matching_witness(dl, p);
        assert(p(dl[i]));
        assert(p(s.last()));
    } else {
        lemma_count_matching_two(dl, p, i, j);
    }
}

proof fn lemma_count_matching_two_witness(
    s: Seq<WorkspaceSnapshot>,
    p: spec_fn(WorkspaceSnapshot) -> bool,
)
    requires
        count_matching(s, p) >= 2,
    ensures
        exists|i: int, j: int| 0 <= i < j < s.len() && p(#[trigger] s[i]) && p(#[trigger] s[j]),
    decreases s.len(),
{
    let dl = s.drop_last();
    if p(s.last()) && count_matching(dl, p) >= 1 {
        lemma_count_matching_witness(dl, p);
        let i = choose|i: int| 0 <= i < dl.len() && p(#[trigger] dl[i]);
        assert(p(s[i]) && p(s[s.len() - 1]));
    } else {
        lemma_count_matching_two_witness(dl, p);
        let (i, j) = choose|i: int, j: int|
            0 <= i < j < dl.len() && p(#[trigger] dl[i]) && p(#[trigger] dl[j]);
        assert(p(s[i]) && p(s[j]));
    }
}

proof fn lemma_count_matching_mono(
    s: Seq<WorkspaceSnapshot>,
    p: spec_fn(WorkspaceSnapshot) -> bool,
    q: spec_fn(WorkspaceSnapshot) -> bool,
)
    requires
        forall|w: WorkspaceSnapshot| #[trigger] q(w) ==> p(w),
    ensures
        count_matching(s, q) <= count_matching(s, p),
    decreases s.len(),
{
    if s.len() > 0 {
        lemma_count_matching_mono(s.drop_last(), p, q);
    }
}

proof fn lemma_filter_count_matching(
    snaps: Seq<WorkspaceSnapshot>,
    reference: Option<String>,
    all_outputs: bool,
    max_idx: u32,
    show_empty: bool,
    occ: Occupancy,
    p: spec_fn(WorkspaceSnapshot) -> bool,
    q: spec_fn(WorkspaceSnapshot) -> bool,
)
    requires
        forall|w: WorkspaceSnapshot| #[trigger] q(w) <==> (included(
            w,
            reference,
            all_outputs,
            max_idx,
            show_empty,
            occ,
        ) && p(w)),
    ensures
        count_matching(
            filter_included(snaps, reference, all_outputs, max_idx, show_empty, occ),
            p,
        ) == count_matching(snaps, q),
    decreases snaps.len(),
{
    if snaps.len() == 0 {
    } else {
        let dl = snaps.drop_last();
        let w = snaps.last();
        lemma_filter_count_matching(
            dl,
            reference,
            all_outputs,
            max_idx,
            show_empty,
            occ,
            p,
            q,
        );
        let part: Seq<WorkspaceSnapshot> = if included(
            w,
            reference,
            all_outputs,
            max_idx,
            show_empty,
            occ,
        ) {
            seq![w]
        } else {
            Seq::empty()
        };
        lemma_count_matching_concat(
            filter_included(dl, reference, all_outputs, max_idx, show_empty, occ),
            part,
            p,
        );
        if included(w, reference, all_outputs, max_idx, show_empty, occ) {
            lemma_count_matching_single(w, p);
        } else {
            assert(count_matching(part, p) == 0);
        }
    }
}

/// The View Builder is deterministic, hence idempotent: any two views built
/// from the same snapshot, occupancy count and policy are identical, since
/// each equals the one view `spec_build` names.
pub proof fn lemma_build_deterministic(
    v1: Seq<WorkspaceSnapshot>,
    v2: Seq<WorkspaceSnapshot>,
    snaps: Seq<WorkspaceSnapshot>,
    occ: Occupancy,
    policy: DisplayPolicy,
)
    requires
        v1 == spec_build(snaps, occ, policy),
        v2 == spec_build(snaps, occ, policy),
    ensures
        v1 == v2,
{
}

proof fn lemma_sort_by_idx_sorted(s: Seq<WorkspaceSnapshot>)
    ensures
        sorted_by_idx(sort_by_idx(s)),
    decreases s.len(),
{
    if s.len() == 0 {
    } else {
        lemma_sort_by_idx_sorted(s.drop_last());
        let s0 = sort_by_idx(s.drop_last());
        let w = s.last();
        lemma_insert_by_idx_shape(s0, w);
        let p = insert_pos(s0, w);
        let r = insert_by_idx(s0, w);
        assert forall|a: int, b: int| 0 <= a < b < r.len() implies (#[trigger] r[a].idx)
            <= (#[trigger] r[b].idx) by {
            if a < p && b == p {
                assert(s0[a].idx <= w.idx);
            } else if a == p && b > p {
                assert(p < s0.len());
                assert(s0[p].idx > w.idx);
                assert(s0[p].idx <= s0[b - 1].idx);
            }
        }
    }
}

/// A workspace that stands in the view was displayed for a reason: it is an
/// included member of the snapshot.
proof fn lemma_view_element_included(
    snaps: Seq<WorkspaceSnapshot>,
    occ: Occupancy,
    policy: DisplayPolicy,
    k: int,
)
    requires
        0 <= k < spec_build(snaps, occ, policy).len(),
    ensures
        included(
            spec_build(snaps, occ, policy)[k],
            spec_reference_output(snaps, policy.all_outputs),
            policy.all_outputs,
            max_occupied_idx(
                snaps,
                spec_reference_output(snaps, policy.all_outputs),
                policy.all_outputs,
                occ,
            ),
            policy.show_empty_workspace,
            occ,
        ),
        exists|i: int| 0 <= i < snaps.len() && #[trigger] snaps[i] == spec_build(
            snaps,
            occ,
            policy,
        )[k],
{
    let reference = spec_reference_output(snaps, policy.all_outputs);
    let all = policy.all_outputs;
    let m = max_occupied_idx(snaps, reference, all, occ);
    let show = policy.show_empty_workspace;
    let v = spec_build(snaps, occ, policy);
    let x = v[k];
    let pe = |w: WorkspaceSnapshot| w == x;
    let qe = |w: WorkspaceSnapshot| included(w, reference, all, m, show, occ) && w == x;
    lemma_count_matching_witness(v, pe);
    assert(pe(v[k]));
    lemma_count_matching_sort(filter_included(snaps, reference, all, m, show, occ), pe);
    lemma_filter_count_matching(snaps, reference, all, m, show, occ, pe, qe);
    assert(count_matching(snaps, qe) >= 1);
    lemma_count_matching_witness(snaps, qe);
    let i = choose|i: int| 0 <= i < snaps.len() && qe(#[trigger] snaps[i]);
    assert(snaps[i] == x);
}

/// The view is always sorted ascending by `idx`; and when the snapshot holds
/// no duplicate workspace ids, neither does the view.
pub proof fn lemma_view_sorted_and_unique(
    snaps: Seq<WorkspaceSnapshot>,
    occ: Occupancy,
    policy: DisplayPolicy,
)
    requires
        unique_ids(snaps),
    ensures
        sorted_by_idx(spec_build(snaps, occ, policy)),
        unique_ids(spec_build(snaps, occ, policy)),
{
    let reference = spec_reference_output(snaps, policy.all_outputs);
    let all = policy.all_outputs;
    let m = max_occupied_idx(snaps, reference, all, occ);
    let show = policy.show_empty_workspace;
    let f = filter_included(snaps, reference, all, m, show, occ);
    let v = spec_build(snaps, occ, policy);
    lemma_sort_by_idx_sorted(f);
    assert forall|a: int, b: int| 0 <= a < b < v.len() implies (#[trigger] v[a].id)
        != (#[trigger] v[b].id) by {
        if v[a].id == v[b].id {
            let id = v[a].id;
            let pid = |w: WorkspaceSnapshot| w.id == id;
            let qid = |w: WorkspaceSnapshot| included(w, reference, all, m, show, occ) && w.id
                == id;
            lemma_count_matching_two(v, pid, a, b);
            lemma_count_matching_sort(f, pid);
            lemma_filter_count_matching(snaps, reference, all, m, show, occ, pid, qid);
            lemma_count_matching_mono(snaps, pid, qid);
            assert(count_matching(snaps, pid) >= 2);
            lemma_count_matching_two_witness(snaps, pid);
            let (i, j) = choose|i: int, j: int|
                0 <= i < j < snaps.len() && pid(#[trigger] snaps[i]) && pid(#[trigger] snaps[j]);
            assert(snaps[i].id != snaps[j].id);
        }
    }
}

/// Whether a workspace is the "next empty" slot the policy may admit: it is
/// included in the view although no counted window sits on it (which, by the
/// inclusion rule, pins it to the index one past the highest occupied one).
pub open spec fn is_next_empty_candidate(
    w: WorkspaceSnapshot,
    snaps: Seq<WorkspaceSnapshot>,
    occ: Occupancy,
    policy: DisplayPolicy,
) -> bool {
    let reference = spec_reference_output(snaps, policy.all_outputs);
    let m = max_occupied_idx(snaps, reference, policy.all_outputs, occ);
    included(w, reference, policy.all_outputs, m, policy.show_empty_workspace, occ)
        && occ.count(w.id) == 0
}

/// How many entries of a view have no counted window.
pub open spec fn empty_slot_count(v: Seq<WorkspaceSnapshot>, occ: Occupancy) -> nat {
    count_matching(v, |w: WorkspaceSnapshot| occ.count(w.id) == 0)
}

/// Whether all in-scope snapshots carry pairwise distinct indices (the
/// compositor guarantees this per output; with every output shown at once,
/// two outputs may repeat an index).
pub open spec fn scope_idxs_unique(snaps: Seq<WorkspaceSnapshot>, policy: DisplayPolicy) -> bool {
    let reference = spec_reference_output(snaps, policy.all_outputs);
    forall|i: int, j: int|
        0 <= i < j < snaps.len() && in_scope(#[trigger] snaps[i], reference, policy.all_outputs)
            && in_scope(#[trigger] snaps[j], reference, policy.all_outputs) ==> snaps[i].idx
            != snaps[j].idx
}

/// Exactly one next-empty workspace stands in the view when the inclusion
/// criteria admit one — an in-scope workspace without counted windows at the
/// index one past the highest occupied index, shown unconditionally or while
/// active — and none stands there otherwise.
pub proof fn lemma_next_empty_slot(
    snaps: Seq<WorkspaceSnapshot>,
    occ: Occupancy,
    policy: DisplayPolicy,
)
    requires
        scope_idxs_unique(snaps, policy),
    ensures
        empty_slot_count(spec_build(snaps, occ, policy), occ) == (if exists|i: int|
            0 <= i < snaps.len() && is_next_empty_candidate(#[trigger] snaps[i], snaps, occ, policy) {
            1nat
        } else {
            0nat
        }),
        forall|k: int|
            0 <= k < spec_build(snaps, occ, policy).len() && occ.count(
                (#[trigger] spec_build(snaps, occ, policy)[k]).id,
            ) == 0 ==> is_next_empty_candidate(spec_build(snaps, occ, policy)[k], snaps, occ, policy),
{
    let reference = spec_reference_output(snaps, policy.all_outputs);
    let all = policy.all_outputs;
    let m = max_occupied_idx(snaps, reference, all, occ);
    let show = policy.show_empty_workspace;
    let f = filter_included(snaps, reference, all, m, show, occ);
    let v = spec_build(snaps, occ, policy);
    let pe = |w: WorkspaceSnapshot| occ.count(w.id) == 0;
    let qe = |w: WorkspaceSnapshot| included(w, reference, all, m, show, occ) && occ.count(w.id)
        == 0;
    lemma_count_matching_sort(f, pe);
    lemma_filter_count_matching(snaps, reference, all, m, show, occ, pe, qe);
    assert(empty_slot_count(v, occ) == count_matching(snaps, qe));

    assert forall|k: int|
        0 <= k < v.len() && occ.count((#[trigger] v[k]).id) == 0 implies is_next_empty_candidate(
        v[k],
        snaps,
        occ,
        policy,
    ) by {
        lemma_view_element_included(snaps, occ, policy, k);
    }

    // At most one candidate stands in the snapshot: any two would share the
    // index one past the highest occupied one while both are in scope.
    if count_matching(snaps, qe) >= 2 {
        lemma_count_matching_two_witness(snaps, qe);
        let (i, j) = choose|i: int, j: int|
            0 <= i < j < snaps.len() && qe(#[trigger] snaps[i]) && qe(#[trigger] snaps[j]);
        assert(in_scope(snaps[i], reference, all) && in_scope(snaps[j], reference, all));
        assert(snaps[i].idx == m + 1 && snaps[j].idx == m + 1);
        assert(false);
    }
    lemma_count_matching_witness(snaps, qe);
    if exists|i: int|
        0 <= i < snaps.len() && is_next_empty_candidate(#[trigger] snaps[i], snaps, occ, policy) {
        let i = choose|i: int|
            0 <= i < snaps.len() && is_next_empty_candidate(#[trigger] snaps[i], snaps, occ, policy);
        assert(qe(snaps[i]));
        assert(count_matching(snaps, qe) >= 1);
    } else {
        if count_matching(snaps, qe) >= 1 {
            let i = choose|i: int| 0 <= i < snaps.len() && qe(#[trigger] snaps[i]);
            assert(is_next_empty_candidate(snaps[i], snaps, occ, policy));
        }
    }
}

} // verus!
