//! Decisions of the component lists in the preferences: which versions keep
//! their recommendation mark, and which entry of a downloaded list is shown
//! as selected.

use vstd::prelude::*;

verus! {

/// How many entries of `s` are true.
pub open spec fn count_true(s: Seq<bool>) -> int
    decreases s.len(),
{
    if s.len() == 0 {
        0
    } else {
        count_true(s.drop_last()) + if s.last() {
            1int
        } else {
            0int
        }
    }
}

/// Trims a list of version recommendation marks for display: only the first
/// `keep` versions are listed at all, and among them only the first `limit`
/// recommended ones keep their mark.
pub fn cap_recommendations(flags: &Vec<bool>, keep: usize, limit: usize) -> (r: Vec<bool>)
    ensures
        r@.len() == if flags@.len() <= keep {
            flags@.len() as int
        } else {
            keep as int
        },
        forall|i: int|
            0 <= i < r@.len() ==> r@[i] == (flags@[i] && count_true(flags@.subrange(0, i))
                < limit),
{
    let n: usize = if flags.len() <= keep {
        flags.len()
    } else {
        keep
    };
    let mut r: Vec<bool> = Vec::new();
    let mut remaining: usize = limit;
    let mut i: usize = 0;
    proof {
        assert(flags@.subrange(0, 0) =~= Seq::<bool>::empty());
    }
    while i < n
        invariant
            0 <= i <= n <= flags@.len(),
            r@.len() == i,
            remaining == if count_true(flags@.subrange(0, i as int)) <= limit {
                limit - count_true(flags@.subrange(0, i as int))
            } else {
                0int
            },
            forall|j: int|
                0 <= j < i ==> r@[j] == (flags@[j] && count_true(flags@.subrange(0, j)) < limit),
        decreases n - i,
    {
        proof {
            assert(flags@.subrange(0, i as int + 1).drop_last() =~= flags@.subrange(0, i as int));
            assert(flags@.subrange(0, i as int + 1).last() == flags@[i as int]);
        }
        if flags[i] && remaining > 0 {
            r.push(true);
            remaining = remaining - 1;
        } else {
            r.push(false);
        }
        i += 1;
    }
    r
}

/// The entry of a downloaded-versions list shown as selected: the first one
/// whose name is the persisted selection, or the first entry at all when
/// nothing or nothing known is selected.
pub fn selected_index(names: &Vec<String>, selected: &Option<String>) -> (r: usize)
    ensures
        match selected {
            None => r == 0,
            Some(s) => {
                if exists|j: int| 0 <= j < names@.len() && #[trigger] names@[j]@ == s@ {
                    &&& r < names@.len()
                    &&& names@[r as int]@ == s@
                    &&& forall|j: int| 0 <= j < r ==> names@[j]@ != s@
                } else {
                    r == 0
                }
            },
        },
{
    match selected {
        None => 0,
        Some(sel) => {
            let mut i: usize = 0;
            while i < names.len()
                invariant
                    *selected == Some(*sel),
                    0 <= i <= names.len(),
                    forall|j: int| 0 <= j < i ==> names@[j]@ != sel@,
                decreases names.len() - i,
            {
                if names[i] == *sel {
                    return i;
                }
                i += 1;
            }
            0
        },
    }
}

/// Whether picking `chosen` actually changes the persisted selection:
/// reselecting the already selected version is a no-op, and no reinstall or
/// prefix update is started for it.
pub fn selection_changed(selected: &Option<String>, chosen: &String) -> (r: bool)
    ensures
        r == match selected {
            Some(s) => s@ != chosen@,
            None => true,
        },
{
    match selected {
        Some(s) => !(*s == *chosen),
        None => true,
    }
}

/// What flattening the downloaded version groups yields: every group's
/// entries, in group order.
pub open spec fn spec_flatten(gs: Seq<Seq<Seq<char>>>) -> Seq<Seq<char>>
    decreases gs.len(),
{
    if gs.len() == 0 {
        Seq::empty()
    } else {
        gs.first() + spec_flatten(gs.drop_first())
    }
}

/// Flattens the downloaded version groups into the one list a selection row
/// displays, keeping group order; [`selected_index`] then finds the
/// persisted selection in it.
#[verifier::loop_isolation(false)]
pub fn flatten_groups(groups: &Vec<Vec<String>>) -> (r: Vec<String>)
    ensures
        r.deep_view() == spec_flatten(groups.deep_view()),
{
    let ghost gs = groups.deep_view();
    let mut r: Vec<String> = Vec::new();
    let mut i: usize = 0;
    proof {
        assert(gs.skip(0) =~= gs);
        assert(r.deep_view() =~= Seq::<Seq<char>>::empty());
        assert(Seq::<Seq<char>>::empty() + spec_flatten(gs) =~= spec_flatten(gs));
    }
    while i < groups.len()
        invariant
            gs.len() == groups@.len(),
            0 <= i <= groups@.len(),
            spec_flatten(gs) == r.deep_view() + spec_flatten(gs.skip(i as int)),
        decreases groups.len() - i,
    {
        proof {
            assert(gs.skip(i as int).drop_first() =~= gs.skip(i as int + 1));
            assert(gs.skip(i as int).first() == gs[i as int]);
            assert(gs[i as int] == groups@[i as int].deep_view());
        }
        let group = &groups[i];
        let ghost before = r.deep_view();
        let mut j: usize = 0;
        proof {
            assert(gs[i as int].len() == group@.len());
            assert(before + gs[i as int].take(0) =~= before);
        }
        while j < group.len()
            invariant
                0 <= j <= group@.len(),
                r.deep_view() == before + gs[i as int].take(j as int),
            decreases group.len() - j,
        {
            proof {
                assert(gs[i as int].take(j as int + 1) =~~= gs[i as int].take(j as int).push(
                    gs[i as int][j as int],
                ));
                assert(gs[i as int][j as int] == group@[j as int]@);
            }
            let ghost mid = r.deep_view();
            r.push(group[j].clone());
            proof {
                assert(r.deep_view() =~~= mid.push(group@[j as int]@));
            }
            j += 1;
        }
        proof {
            assert(gs[i as int].take(group@.len() as int) =~~= gs[i as int]);
            assert(spec_flatten(gs.skip(i as int)) == gs[i as int] + spec_flatten(
                gs.skip(i as int + 1),
            ));
            assert(r.deep_view() + spec_flatten(gs.skip(i as int + 1)) =~~= before + spec_flatten(
                gs.skip(i as int),
            ));
        }
        i += 1;
    }
    proof {
        assert(gs.skip(groups@.len() as int) =~= Seq::<Seq<Seq<char>>>::empty());
        assert(r.deep_view() + Seq::<Seq<char>>::empty() =~= r.deep_view());
    }
    r
}

/// The first `k` entries of one group.
pub open spec fn spec_group_prefix(s: Seq<Seq<char>>, k: int) -> Seq<Seq<char>> {
    if k < s.len() {
        s.take(k)
    } else {
        s
    }
}

/// What the version shortlist holds: the first `k` versions of each of the
/// first `g` groups, flattened in order.
pub open spec fn spec_shortlist(gs: Seq<Seq<Seq<char>>>, g: int, k: int) -> Seq<Seq<char>>
    decreases gs.len(),
{
    if gs.len() == 0 || g <= 0 {
        Seq::empty()
    } else {
        spec_group_prefix(gs.first(), k) + spec_shortlist(gs.drop_first(), g - 1, k)
    }
}

/// Shortlists the component versions offered on a constrained first-run
/// page: the first `per_group` versions of each of the first `max_groups`
/// groups, by name, flattened in group order.
#[verifier::loop_isolation(false)]
pub fn shortlist(groups: &Vec<Vec<String>>, max_groups: usize, per_group: usize) -> (r: Vec<
    String,
>)
    ensures
        r.deep_view() == spec_shortlist(groups.deep_view(), max_groups as int, per_group as int),
{
    let ghost gs = groups.deep_view();
    let ghost g = max_groups as int;
    let ghost k = per_group as int;
    let mut r: Vec<String> = Vec::new();
    let mut i: usize = 0;
    proof {
        assert(gs.skip(0) =~= gs);
        assert(r.deep_view() =~= Seq::<Seq<char>>::empty());
        assert(Seq::<Seq<char>>::empty() + spec_shortlist(gs, g, k) =~= spec_shortlist(gs, g, k));
    }
    while i < groups.len() && i < max_groups
        invariant
            gs == groups.deep_view(),
            gs.len() == groups@.len(),
            0 <= i <= groups@.len(),
            i <= max_groups,
            spec_shortlist(gs, g, k) == r.deep_view() + spec_shortlist(gs.skip(i as int), g - i, k),
        decreases groups.len() - i,
    {
        proof {
            assert(gs.skip(i as int).drop_first() =~= gs.skip(i as int + 1));
            assert(gs.skip(i as int).first() == gs[i as int]);
            assert(gs[i as int] == groups@[i as int].deep_view());
        }
        let group = &groups[i];
        let n: usize = if group.len() <= per_group {
            group.len()
        } else {
            per_group
        };
        proof {
            assert(gs[i as int].len() == group@.len());
            assert(spec_group_prefix(gs[i as int], k) =~~= gs[i as int].take(n as int));
        }
        let ghost before = r.deep_view();
        let mut j: usize = 0;
        while j < n
            invariant
                0 <= j <= n <= group@.len(),
                gs == groups.deep_view(),
                0 <= i < gs.len(),
                gs[i as int] == groups@[i as int].deep_view(),
                group == &groups@[i as int],
                r.deep_view() == before + gs[i as int].take(j as int),
            decreases n - j,
        {
            proof {
                assert(gs[i as int].take(j as int + 1) =~~= gs[i as int].take(j as int).push(
                    gs[i as int][j as int],
                ));
                assert(gs[i as int][j as int] == group@[j as int]@);
            }
            let ghost mid = r.deep_view();
            r.push(group[j].clone());
            proof {
                assert(r.deep_view() =~~= mid.push(group@[j as int]@));
            }
            j += 1;
        }
        proof {
            assert(spec_shortlist(gs.skip(i as int), g - i, k) == spec_group_prefix(
                gs.skip(i as int).first(),
                k,
            ) + spec_shortlist(gs.skip(i as int + 1), g - i - 1, k));
            assert(r.deep_view() + spec_shortlist(gs.skip(i as int + 1), g - i - 1, k) =~~= before
                + spec_shortlist(gs.skip(i as int), g - i, k));
        }
        i += 1;
    }
    proof {
        if i < groups.len() {
            assert(gs.skip(i as int).len() == 0 || g - i <= 0);
        } else {
            assert(gs.skip(i as int) =~= Seq::<Seq<Seq<char>>>::empty());
        }
        assert(r.deep_view() + Seq::<Seq<char>>::empty() =~= r.deep_view());
    }
    r
}

} // verus!
