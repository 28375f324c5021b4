//! The window ignore filter and the per-workspace occupancy count.

use vstd::prelude::*;
use crate::model::{IgnoreRule, WindowInfo};

verus! {

/// A window matches a rule when every present field of the rule equals the
/// corresponding window field; an absent field is a wildcard. A rule with
/// both fields absent therefore matches every window.
pub open spec fn rule_matches(rule: IgnoreRule, w: WindowInfo) -> bool {
    &&& match rule.app_id {
        Option::None => true,
        Option::Some(a) => match w.app_id {
            Option::None => false,
            Option::Some(wa) => wa@ == a@,
        },
    }
    &&& match rule.title {
        Option::None => true,
        Option::Some(t) => match w.title {
            Option::None => false,
            Option::Some(wt) => wt@ == t@,
        },
    }
}

/// A window is ignored when it matches at least one rule.
pub open spec fn window_ignored(w: WindowInfo, rules: Seq<IgnoreRule>) -> bool {
    exists|i: int| 0 <= i < rules.len() && rule_matches(rules[i], w)
}

/// A window counts toward workspace `id` when it sits on that workspace and
/// no rule ignores it.
pub open spec fn counts_toward(w: WindowInfo, rules: Seq<IgnoreRule>, id: u64) -> bool {
    w.workspace_id == Option::Some(id) && !window_ignored(w, rules)
}

/// The number of windows in `ws` that count toward workspace `id`.
pub open spec fn spec_occupancy(ws: Seq<WindowInfo>, rules: Seq<IgnoreRule>, id: u64) -> nat
    decreases ws.len(),
{
    if ws.len() == 0 {
        0
    } else {
        spec_occupancy(ws.drop_last(), rules, id) + if counts_toward(
            ws.last(),
            rules,
            id,
        ) {
            1nat
        } else {
            0nat
        }
    }
}

pub fn exec_rule_matches(rule: &IgnoreRule, w: &WindowInfo) -> (r: bool)
    ensures
        r == rule_matches(*rule, *w),
{
    let app_ok: bool = match &rule.app_id {
        Option::None => true,
        Option::Some(a) => match &w.app_id {
            Option::None => false,
            Option::Some(wa) => *wa == *a,
        },
    };
    let title_ok: bool = match &rule.title {
        Option::None => true,
        Option::Some(t) => match &w.title {
            Option::None => false,
            Option::Some(wt) => *wt == *t,
        },
    };
    app_ok && title_ok
}

pub fn exec_window_ignored(w: &WindowInfo, rules: &Vec<IgnoreRule>) -> (r: bool)
    ensures
        r == window_ignored(*w, rules@),
{
    let mut i: usize = 0;
    while i < rules.len()
        invariant
            i <= rules.len(),
            forall|j: int| 0 <= j < i ==> !rule_matches(rules@[j], *w),
        decreases rules.len() - i,
    {
        if exec_rule_matches(&rules[i], w) {
            return true;
        }
        i = i + 1;
    }
    false
}

/// How many counted windows sit on workspace `id`, over a sequence holding
/// one workspace id per counted window.
pub open spec fn count_in(s: Seq<u64>, id: u64) -> nat
    decreases s.len(),
{
    if s.len() == 0 {
        0
    } else {
        count_in(s.drop_last(), id) + if s.last() == id {
            1nat
        } else {
            0nat
        }
    }
}

/// The occupancy map from workspace id to its count of non-ignored windows,
/// held as one entry per counted window.
pub struct Occupancy {
    pub counted: Vec<u64>,
}

impl Occupancy {
    /// The count recorded for workspace `id`; zero when none is.
    pub open spec fn count(self, id: u64) -> nat {
        count_in(self.counted@, id)
    }

    pub fn get(&self, id: u64) -> (n: usize)
        ensures
            n == self.count(id),
    {
        let mut n: usize = 0;
        let mut i: usize = 0;
        while i < self.counted.len()
            invariant
                i <= self.counted.len(),
                n == count_in(self.counted@.take(i as int), id),
                n <= i,
            decreases self.counted.len() - i,
        {
            proof {
                assert(self.counted@.take(i + 1).drop_last() =~= self.counted@.take(i as int));
                assert(self.counted@.take(i + 1).last() == self.counted@[i as int]);
            }
            if self.counted[i] == id {
                n = n + 1;
            }
            i = i + 1;
        }
        proof {
            assert(self.counted@.take(self.counted@.len() as int) =~= self.counted@);
        }
        n
    }
}

/// Counts, for every workspace, the windows that no ignore rule matches.
/// Windows without a workspace id count toward nothing.
pub fn count_occupancy(windows: &Vec<WindowInfo>, rules: &Vec<IgnoreRule>) -> (occ: Occupancy)
    ensures
        forall|id: u64| #[trigger] occ.count(id) == spec_occupancy(windows@, rules@, id),
{
    let mut counted: Vec<u64> = Vec::new();
    let mut i: usize = 0;
    while i < windows.len()
        invariant
            i <= windows.len(),
            forall|id: u64| #[trigger] count_in(counted@, id) == spec_occupancy(
                windows@.take(i as int),
                rules@,
                id,
            ),
        decreases windows.len() - i,
    {
        let ghost prev = counted@;
        let w = &windows[i];
        if !exec_window_ignored(w, rules) {
            if let Option::Some(ws_id) = w.workspace_id {
                counted.push(ws_id);
                proof {
                    assert forall|id: u64| #[trigger] count_in(counted@, id) == count_in(
                        prev,
                        id,
                    ) + if ws_id == id {
                        1nat
                    } else {
                        0nat
                    } by {
                        assert(counted@.drop_last() =~= prev);
                    }
                }
            }
        }
        proof {
            assert(windows@.take(i + 1).drop_last() =~= windows@.take(i as int));
            assert(windows@.take(i + 1).last() == windows@[i as int]);
        }
        i = i + 1;
    }
    proof {
        assert(windows@.take(windows@.len() as int) =~= windows@);
    }
    Occupancy { counted }
}

} // verus!
